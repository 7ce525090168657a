//! Generators for the arithmetic and logic operations shared by many instructions.

use vstd::prelude::*;
use crate::op::{Op, WasmLocal, LocalOrImmedate, GlobalPointer};
use crate::consts::{OPSIZE_8, OPSIZE_16, OPSIZE_32, FLAGS_ALL, FLAG_SUB, FLAG_CARRY, FLAG_OVERFLOW, FLAG_ADJUST, NOT_CARRY, EAX, EDX};
use crate::frame::{usable, base};
use crate::builder::{WasmBuilder, JitContext, ready, builder_emits, emits, restores_by};
use crate::operand::{operand_usable, operand_op, bit_offset_code, gen_bit_offset};

verus! {

/// The code that [`gen_add32`] appends.
pub open spec fn gen_add32_code(dest_operand: WasmLocal, source_operand: LocalOrImmedate) -> Seq<Op> {
    seq![Op::SetLastOp1(dest_operand), Op::GetLocal(dest_operand), operand_op(source_operand), Op::AddI32, Op::SetLocal(dest_operand), Op::SetLastResult(dest_operand), Op::SetLastOpSize(OPSIZE_32), Op::SetFlagsChanged(FLAGS_ALL)]
}

/// `dest = dest + source` on 32 bits, recording the operands for lazy flags.
pub fn gen_add32(builder: &mut WasmBuilder, dest_operand: &WasmLocal, source_operand: &LocalOrImmedate)
    requires
        ready(*old(builder), 32),
        usable(old(builder).frame(), *dest_operand),
        operand_usable(old(builder).frame(), *source_operand),
    ensures
        builder_emits(*old(builder), *final(builder), gen_add32_code(*dest_operand, *source_operand), 0),
        restores_by(*old(builder), *final(builder), 0),
{
    builder.emit(Op::SetLastOp1(*dest_operand));
    builder.emit(Op::GetLocal(*dest_operand));
    source_operand.gen_get(builder);
    builder.emit(Op::AddI32);
    builder.emit(Op::SetLocal(*dest_operand));
    builder.emit(Op::SetLastResult(*dest_operand));
    builder.emit(Op::SetLastOpSize(OPSIZE_32));
    builder.emit(Op::SetFlagsChanged(FLAGS_ALL));
    proof {
        assert(builder.code@ =~= old(builder).code@ + gen_add32_code(*dest_operand, *source_operand));
        assert(builder.frame().live =~= old(builder).frame().live);
        assert(builder.frame().live64 =~= old(builder).frame().live64);
        assert(builder.frame().ctrl =~= old(builder).frame().ctrl);
    }
}

/// The code that [`gen_sub32`] appends.
pub open spec fn gen_sub32_code(dest_operand: WasmLocal, source_operand: LocalOrImmedate) -> Seq<Op> {
    seq![Op::SetLastOp1(dest_operand), Op::GetLocal(dest_operand), operand_op(source_operand), Op::SubI32, Op::SetLocal(dest_operand), Op::SetLastResult(dest_operand), Op::SetLastOpSize(OPSIZE_32), Op::SetFlagsChanged(FLAGS_ALL | FLAG_SUB)]
}

/// `dest = dest - source` on 32 bits, recording the operands for lazy flags.
pub fn gen_sub32(builder: &mut WasmBuilder, dest_operand: &WasmLocal, source_operand: &LocalOrImmedate)
    requires
        ready(*old(builder), 32),
        usable(old(builder).frame(), *dest_operand),
        operand_usable(old(builder).frame(), *source_operand),
    ensures
        builder_emits(*old(builder), *final(builder), gen_sub32_code(*dest_operand, *source_operand), 0),
        restores_by(*old(builder), *final(builder), 0),
{
    builder.emit(Op::SetLastOp1(*dest_operand));
    builder.emit(Op::GetLocal(*dest_operand));
    source_operand.gen_get(builder);
    builder.emit(Op::SubI32);
    builder.emit(Op::SetLocal(*dest_operand));
    builder.emit(Op::SetLastResult(*dest_operand));
    builder.emit(Op::SetLastOpSize(OPSIZE_32));
    builder.emit(Op::SetFlagsChanged(FLAGS_ALL | FLAG_SUB));
    proof {
        assert(builder.code@ =~= old(builder).code@ + gen_sub32_code(*dest_operand, *source_operand));
        assert(builder.frame().live =~= old(builder).frame().live);
        assert(builder.frame().live64 =~= old(builder).frame().live64);
        assert(builder.frame().ctrl =~= old(builder).frame().ctrl);
    }
}

/// The code that [`gen_cmp`] appends.
pub open spec fn gen_cmp_code(dest_operand: WasmLocal, source_operand: LocalOrImmedate, size: i32) -> Seq<Op> {
    seq![Op::ConstGlobal(GlobalPointer::LastResult), Op::GetLocal(dest_operand), operand_op(source_operand), Op::SubI32] + (if size == OPSIZE_8 || size == OPSIZE_16 { seq![Op::ConstI32(if size == OPSIZE_8 { 0xFF } else { 0xFFFF }), Op::AndI32] } else { Seq::<Op>::empty() }) + seq![Op::StoreAlignedI32(0), Op::ConstGlobal(GlobalPointer::LastOp1), Op::GetLocal(dest_operand)] + (if size == OPSIZE_8 || size == OPSIZE_16 { seq![Op::ConstI32(if size == OPSIZE_8 { 0xFF } else { 0xFFFF }), Op::AndI32] } else { Seq::<Op>::empty() }) + seq![Op::StoreAlignedI32(0), Op::SetLastOpSize(size), Op::SetFlagsChanged(FLAGS_ALL | FLAG_SUB)]
}

/// Compares `dest` with `source` at the given operand size: records their difference
/// and `dest` (both cut to the operand size) for lazy flags; `dest` is unchanged.
#[verifier::rlimit(40)]
pub fn gen_cmp(builder: &mut WasmBuilder, dest_operand: &WasmLocal, source_operand: &LocalOrImmedate, size: i32)
    requires
        ready(*old(builder), 32),
        usable(old(builder).frame(), *dest_operand),
        operand_usable(old(builder).frame(), *source_operand),
    ensures
        builder_emits(*old(builder), *final(builder), gen_cmp_code(*dest_operand, *source_operand, size), 0),
        restores_by(*old(builder), *final(builder), 0),
{
    builder.emit(Op::ConstGlobal(GlobalPointer::LastResult));
    builder.emit(Op::GetLocal(*dest_operand));
    source_operand.gen_get(builder);
    builder.emit(Op::SubI32);
    proof { assert(builder.code@ =~= old(builder).code@ + seq![Op::ConstGlobal(GlobalPointer::LastResult), Op::GetLocal(*dest_operand), operand_op(*source_operand), Op::SubI32]); }
    if size == OPSIZE_8 || size == OPSIZE_16 {
        builder.emit(Op::ConstI32(if size == OPSIZE_8 { 0xFF } else { 0xFFFF }));
        builder.emit(Op::AndI32);
        proof { assert(builder.code@ =~= old(builder).code@ + seq![Op::ConstGlobal(GlobalPointer::LastResult), Op::GetLocal(*dest_operand), operand_op(*source_operand), Op::SubI32] + seq![Op::ConstI32(if size == OPSIZE_8 { 0xFF } else { 0xFFFF }), Op::AndI32]); }
    } else {
        proof { assert(builder.code@ =~= old(builder).code@ + seq![Op::ConstGlobal(GlobalPointer::LastResult), Op::GetLocal(*dest_operand), operand_op(*source_operand), Op::SubI32]); }
    }
    proof { assert(builder.code@ =~= old(builder).code@ + seq![Op::ConstGlobal(GlobalPointer::LastResult), Op::GetLocal(*dest_operand), operand_op(*source_operand), Op::SubI32] + (if size == OPSIZE_8 || size == OPSIZE_16 { seq![Op::ConstI32(if size == OPSIZE_8 { 0xFF } else { 0xFFFF }), Op::AndI32] } else { Seq::<Op>::empty() })); }
    builder.emit(Op::StoreAlignedI32(0));
    builder.emit(Op::ConstGlobal(GlobalPointer::LastOp1));
    builder.emit(Op::GetLocal(*dest_operand));
    proof { assert(builder.code@ =~= old(builder).code@ + seq![Op::ConstGlobal(GlobalPointer::LastResult), Op::GetLocal(*dest_operand), operand_op(*source_operand), Op::SubI32] + (if size == OPSIZE_8 || size == OPSIZE_16 { seq![Op::ConstI32(if size == OPSIZE_8 { 0xFF } else { 0xFFFF }), Op::AndI32] } else { Seq::<Op>::empty() }) + seq![Op::StoreAlignedI32(0), Op::ConstGlobal(GlobalPointer::LastOp1), Op::GetLocal(*dest_operand)]); }
    if size == OPSIZE_8 || size == OPSIZE_16 {
        builder.emit(Op::ConstI32(if size == OPSIZE_8 { 0xFF } else { 0xFFFF }));
        builder.emit(Op::AndI32);
        proof { assert(builder.code@ =~= old(builder).code@ + seq![Op::ConstGlobal(GlobalPointer::LastResult), Op::GetLocal(*dest_operand), operand_op(*source_operand), Op::SubI32] + (if size == OPSIZE_8 || size == OPSIZE_16 { seq![Op::ConstI32(if size == OPSIZE_8 { 0xFF } else { 0xFFFF }), Op::AndI32] } else { Seq::<Op>::empty() }) + seq![Op::StoreAlignedI32(0), Op::ConstGlobal(GlobalPointer::LastOp1), Op::GetLocal(*dest_operand)] + seq![Op::ConstI32(if size == OPSIZE_8 { 0xFF } else { 0xFFFF }), Op::AndI32]); }
    } else {
        proof { assert(builder.code@ =~= old(builder).code@ + seq![Op::ConstGlobal(GlobalPointer::LastResult), Op::GetLocal(*dest_operand), operand_op(*source_operand), Op::SubI32] + (if size == OPSIZE_8 || size == OPSIZE_16 { seq![Op::ConstI32(if size == OPSIZE_8 { 0xFF } else { 0xFFFF }), Op::AndI32] } else { Seq::<Op>::empty() }) + seq![Op::StoreAlignedI32(0), Op::ConstGlobal(GlobalPointer::LastOp1), Op::GetLocal(*dest_operand)]); }
    }
    proof { assert(builder.code@ =~= old(builder).code@ + seq![Op::ConstGlobal(GlobalPointer::LastResult), Op::GetLocal(*dest_operand), operand_op(*source_operand), Op::SubI32] + (if size == OPSIZE_8 || size == OPSIZE_16 { seq![Op::ConstI32(if size == OPSIZE_8 { 0xFF } else { 0xFFFF }), Op::AndI32] } else { Seq::<Op>::empty() }) + seq![Op::StoreAlignedI32(0), Op::ConstGlobal(GlobalPointer::LastOp1), Op::GetLocal(*dest_operand)] + (if size == OPSIZE_8 || size == OPSIZE_16 { seq![Op::ConstI32(if size == OPSIZE_8 { 0xFF } else { 0xFFFF }), Op::AndI32] } else { Seq::<Op>::empty() })); }
    builder.emit(Op::StoreAlignedI32(0));
    builder.emit(Op::SetLastOpSize(size));
    builder.emit(Op::SetFlagsChanged(FLAGS_ALL | FLAG_SUB));
    proof {
        assert(builder.code@ =~= old(builder).code@ + gen_cmp_code(*dest_operand, *source_operand, size));
        assert(builder.frame().live =~= old(builder).frame().live);
        assert(builder.frame().live64 =~= old(builder).frame().live64);
        assert(builder.frame().ctrl =~= old(builder).frame().ctrl);
    }
}

/// `gen_cmp` at operand size 8.
pub fn gen_cmp8(builder: &mut WasmBuilder, dest: &WasmLocal, source: &LocalOrImmedate)
    requires
        ready(*old(builder), 32),
        usable(old(builder).frame(), *dest),
        operand_usable(old(builder).frame(), *source),
    ensures
        builder_emits(*old(builder), *final(builder), gen_cmp_code(*dest, *source, OPSIZE_8), 0),
        restores_by(*old(builder), *final(builder), 0),
{
    gen_cmp(builder, dest, source, OPSIZE_8);
    proof {
        assert(builder.code@ =~= old(builder).code@ + gen_cmp_code(*dest, *source, OPSIZE_8));
        assert(builder.frame().live =~= old(builder).frame().live);
        assert(builder.frame().live64 =~= old(builder).frame().live64);
        assert(builder.frame().ctrl =~= old(builder).frame().ctrl);
    }
}

/// `gen_cmp` at operand size 16.
pub fn gen_cmp16(builder: &mut WasmBuilder, dest: &WasmLocal, source: &LocalOrImmedate)
    requires
        ready(*old(builder), 32),
        usable(old(builder).frame(), *dest),
        operand_usable(old(builder).frame(), *source),
    ensures
        builder_emits(*old(builder), *final(builder), gen_cmp_code(*dest, *source, OPSIZE_16), 0),
        restores_by(*old(builder), *final(builder), 0),
{
    gen_cmp(builder, dest, source, OPSIZE_16);
    proof {
        assert(builder.code@ =~= old(builder).code@ + gen_cmp_code(*dest, *source, OPSIZE_16));
        assert(builder.frame().live =~= old(builder).frame().live);
        assert(builder.frame().live64 =~= old(builder).frame().live64);
        assert(builder.frame().ctrl =~= old(builder).frame().ctrl);
    }
}

/// `gen_cmp` at operand size 32.
pub fn gen_cmp32(builder: &mut WasmBuilder, dest: &WasmLocal, source: &LocalOrImmedate)
    requires
        ready(*old(builder), 32),
        usable(old(builder).frame(), *dest),
        operand_usable(old(builder).frame(), *source),
    ensures
        builder_emits(*old(builder), *final(builder), gen_cmp_code(*dest, *source, OPSIZE_32), 0),
        restores_by(*old(builder), *final(builder), 0),
{
    gen_cmp(builder, dest, source, OPSIZE_32);
    proof {
        assert(builder.code@ =~= old(builder).code@ + gen_cmp_code(*dest, *source, OPSIZE_32));
        assert(builder.frame().live =~= old(builder).frame().live);
        assert(builder.frame().live64 =~= old(builder).frame().live64);
        assert(builder.frame().ctrl =~= old(builder).frame().ctrl);
    }
}

/// The code that [`gen_adc32`] appends.
pub open spec fn gen_adc32_code(dest_operand: WasmLocal, source_operand: LocalOrImmedate) -> Seq<Op> {
    seq![Op::GetLocal(dest_operand), operand_op(source_operand), Op::CallFn2Ret("adc32"), Op::SetLocal(dest_operand)]
}

/// `dest = dest + source + carry` through the runtime helper.
pub fn gen_adc32(builder: &mut WasmBuilder, dest_operand: &WasmLocal, source_operand: &LocalOrImmedate)
    requires
        ready(*old(builder), 32),
        usable(old(builder).frame(), *dest_operand),
        operand_usable(old(builder).frame(), *source_operand),
    ensures
        builder_emits(*old(builder), *final(builder), gen_adc32_code(*dest_operand, *source_operand), 0),
        restores_by(*old(builder), *final(builder), 0),
{
    builder.emit(Op::GetLocal(*dest_operand));
    source_operand.gen_get(builder);
    builder.emit(Op::CallFn2Ret("adc32"));
    builder.emit(Op::SetLocal(*dest_operand));
    proof {
        assert(builder.code@ =~= old(builder).code@ + gen_adc32_code(*dest_operand, *source_operand));
        assert(builder.frame().live =~= old(builder).frame().live);
        assert(builder.frame().live64 =~= old(builder).frame().live64);
        assert(builder.frame().ctrl =~= old(builder).frame().ctrl);
    }
}

/// The code that [`gen_sbb32`] appends.
pub open spec fn gen_sbb32_code(dest_operand: WasmLocal, source_operand: LocalOrImmedate) -> Seq<Op> {
    seq![Op::GetLocal(dest_operand), operand_op(source_operand), Op::CallFn2Ret("sbb32"), Op::SetLocal(dest_operand)]
}

/// `dest = dest - (source + carry)` through the runtime helper.
pub fn gen_sbb32(builder: &mut WasmBuilder, dest_operand: &WasmLocal, source_operand: &LocalOrImmedate)
    requires
        ready(*old(builder), 32),
        usable(old(builder).frame(), *dest_operand),
        operand_usable(old(builder).frame(), *source_operand),
    ensures
        builder_emits(*old(builder), *final(builder), gen_sbb32_code(*dest_operand, *source_operand), 0),
        restores_by(*old(builder), *final(builder), 0),
{
    builder.emit(Op::GetLocal(*dest_operand));
    source_operand.gen_get(builder);
    builder.emit(Op::CallFn2Ret("sbb32"));
    builder.emit(Op::SetLocal(*dest_operand));
    proof {
        assert(builder.code@ =~= old(builder).code@ + gen_sbb32_code(*dest_operand, *source_operand));
        assert(builder.frame().live =~= old(builder).frame().live);
        assert(builder.frame().live64 =~= old(builder).frame().live64);
        assert(builder.frame().ctrl =~= old(builder).frame().ctrl);
    }
}

/// The code that [`gen_and32`] appends.
pub open spec fn gen_and32_code(dest_operand: WasmLocal, source_operand: LocalOrImmedate) -> Seq<Op> {
    seq![Op::GetLocal(dest_operand), operand_op(source_operand), Op::AndI32, Op::SetLocal(dest_operand), Op::SetLastResult(dest_operand), Op::SetLastOpSize(OPSIZE_32), Op::SetFlagsChanged(FLAGS_ALL & !FLAG_CARRY & !FLAG_OVERFLOW & !FLAG_ADJUST), Op::ClearFlagsBits(FLAG_CARRY | FLAG_OVERFLOW | FLAG_ADJUST)]
}

/// `dest = dest & source`; carry, overflow and adjust become zero.
pub fn gen_and32(builder: &mut WasmBuilder, dest_operand: &WasmLocal, source_operand: &LocalOrImmedate)
    requires
        ready(*old(builder), 32),
        usable(old(builder).frame(), *dest_operand),
        operand_usable(old(builder).frame(), *source_operand),
    ensures
        builder_emits(*old(builder), *final(builder), gen_and32_code(*dest_operand, *source_operand), 0),
        restores_by(*old(builder), *final(builder), 0),
{
    builder.emit(Op::GetLocal(*dest_operand));
    source_operand.gen_get(builder);
    builder.emit(Op::AndI32);
    builder.emit(Op::SetLocal(*dest_operand));
    builder.emit(Op::SetLastResult(*dest_operand));
    builder.emit(Op::SetLastOpSize(OPSIZE_32));
    builder.emit(Op::SetFlagsChanged(FLAGS_ALL & !FLAG_CARRY & !FLAG_OVERFLOW & !FLAG_ADJUST));
    builder.emit(Op::ClearFlagsBits(FLAG_CARRY | FLAG_OVERFLOW | FLAG_ADJUST));
    proof {
        assert(builder.code@ =~= old(builder).code@ + gen_and32_code(*dest_operand, *source_operand));
        assert(builder.frame().live =~= old(builder).frame().live);
        assert(builder.frame().live64 =~= old(builder).frame().live64);
        assert(builder.frame().ctrl =~= old(builder).frame().ctrl);
    }
}

/// The code that [`gen_test`] appends.
pub open spec fn gen_test_code(dest_operand: WasmLocal, source_operand: LocalOrImmedate, size: i32) -> Seq<Op> {
    seq![Op::ConstGlobal(GlobalPointer::LastResult), Op::GetLocal(dest_operand), operand_op(source_operand), Op::AndI32, Op::StoreAlignedI32(0), Op::SetLastOpSize(size), Op::SetFlagsChanged(FLAGS_ALL & !FLAG_CARRY & !FLAG_OVERFLOW & !FLAG_ADJUST), Op::ClearFlagsBits(FLAG_CARRY | FLAG_OVERFLOW | FLAG_ADJUST)]
}

/// Records `dest & source` for lazy flags; `dest` is unchanged.
pub fn gen_test(builder: &mut WasmBuilder, dest_operand: &WasmLocal, source_operand: &LocalOrImmedate, size: i32)
    requires
        ready(*old(builder), 32),
        usable(old(builder).frame(), *dest_operand),
        operand_usable(old(builder).frame(), *source_operand),
    ensures
        builder_emits(*old(builder), *final(builder), gen_test_code(*dest_operand, *source_operand, size), 0),
        restores_by(*old(builder), *final(builder), 0),
{
    builder.emit(Op::ConstGlobal(GlobalPointer::LastResult));
    builder.emit(Op::GetLocal(*dest_operand));
    source_operand.gen_get(builder);
    builder.emit(Op::AndI32);
    builder.emit(Op::StoreAlignedI32(0));
    builder.emit(Op::SetLastOpSize(size));
    builder.emit(Op::SetFlagsChanged(FLAGS_ALL & !FLAG_CARRY & !FLAG_OVERFLOW & !FLAG_ADJUST));
    builder.emit(Op::ClearFlagsBits(FLAG_CARRY | FLAG_OVERFLOW | FLAG_ADJUST));
    proof {
        assert(builder.code@ =~= old(builder).code@ + gen_test_code(*dest_operand, *source_operand, size));
        assert(builder.frame().live =~= old(builder).frame().live);
        assert(builder.frame().live64 =~= old(builder).frame().live64);
        assert(builder.frame().ctrl =~= old(builder).frame().ctrl);
    }
}

/// `gen_test` at operand size 8.
pub fn gen_test8(builder: &mut WasmBuilder, dest: &WasmLocal, source: &LocalOrImmedate)
    requires
        ready(*old(builder), 32),
        usable(old(builder).frame(), *dest),
        operand_usable(old(builder).frame(), *source),
    ensures
        builder_emits(*old(builder), *final(builder), gen_test_code(*dest, *source, OPSIZE_8), 0),
        restores_by(*old(builder), *final(builder), 0),
{
    gen_test(builder, dest, source, OPSIZE_8);
    proof {
        assert(builder.code@ =~= old(builder).code@ + gen_test_code(*dest, *source, OPSIZE_8));
        assert(builder.frame().live =~= old(builder).frame().live);
        assert(builder.frame().live64 =~= old(builder).frame().live64);
        assert(builder.frame().ctrl =~= old(builder).frame().ctrl);
    }
}

/// `gen_test` at operand size 16.
pub fn gen_test16(builder: &mut WasmBuilder, dest: &WasmLocal, source: &LocalOrImmedate)
    requires
        ready(*old(builder), 32),
        usable(old(builder).frame(), *dest),
        operand_usable(old(builder).frame(), *source),
    ensures
        builder_emits(*old(builder), *final(builder), gen_test_code(*dest, *source, OPSIZE_16), 0),
        restores_by(*old(builder), *final(builder), 0),
{
    gen_test(builder, dest, source, OPSIZE_16);
    proof {
        assert(builder.code@ =~= old(builder).code@ + gen_test_code(*dest, *source, OPSIZE_16));
        assert(builder.frame().live =~= old(builder).frame().live);
        assert(builder.frame().live64 =~= old(builder).frame().live64);
        assert(builder.frame().ctrl =~= old(builder).frame().ctrl);
    }
}

/// `gen_test` at operand size 32.
pub fn gen_test32(builder: &mut WasmBuilder, dest: &WasmLocal, source: &LocalOrImmedate)
    requires
        ready(*old(builder), 32),
        usable(old(builder).frame(), *dest),
        operand_usable(old(builder).frame(), *source),
    ensures
        builder_emits(*old(builder), *final(builder), gen_test_code(*dest, *source, OPSIZE_32), 0),
        restores_by(*old(builder), *final(builder), 0),
{
    gen_test(builder, dest, source, OPSIZE_32);
    proof {
        assert(builder.code@ =~= old(builder).code@ + gen_test_code(*dest, *source, OPSIZE_32));
        assert(builder.frame().live =~= old(builder).frame().live);
        assert(builder.frame().live64 =~= old(builder).frame().live64);
        assert(builder.frame().ctrl =~= old(builder).frame().ctrl);
    }
}

/// The code that [`gen_or32`] appends.
pub open spec fn gen_or32_code(dest_operand: WasmLocal, source_operand: LocalOrImmedate) -> Seq<Op> {
    seq![Op::GetLocal(dest_operand), operand_op(source_operand), Op::OrI32, Op::SetLocal(dest_operand), Op::SetLastResult(dest_operand), Op::SetLastOpSize(OPSIZE_32), Op::SetFlagsChanged(FLAGS_ALL & !FLAG_CARRY & !FLAG_OVERFLOW & !FLAG_ADJUST), Op::ClearFlagsBits(FLAG_CARRY | FLAG_OVERFLOW | FLAG_ADJUST)]
}

/// `dest = dest | source`; carry, overflow and adjust become zero.
pub fn gen_or32(builder: &mut WasmBuilder, dest_operand: &WasmLocal, source_operand: &LocalOrImmedate)
    requires
        ready(*old(builder), 32),
        usable(old(builder).frame(), *dest_operand),
        operand_usable(old(builder).frame(), *source_operand),
    ensures
        builder_emits(*old(builder), *final(builder), gen_or32_code(*dest_operand, *source_operand), 0),
        restores_by(*old(builder), *final(builder), 0),
{
    builder.emit(Op::GetLocal(*dest_operand));
    source_operand.gen_get(builder);
    builder.emit(Op::OrI32);
    builder.emit(Op::SetLocal(*dest_operand));
    builder.emit(Op::SetLastResult(*dest_operand));
    builder.emit(Op::SetLastOpSize(OPSIZE_32));
    builder.emit(Op::SetFlagsChanged(FLAGS_ALL & !FLAG_CARRY & !FLAG_OVERFLOW & !FLAG_ADJUST));
    builder.emit(Op::ClearFlagsBits(FLAG_CARRY | FLAG_OVERFLOW | FLAG_ADJUST));
    proof {
        assert(builder.code@ =~= old(builder).code@ + gen_or32_code(*dest_operand, *source_operand));
        assert(builder.frame().live =~= old(builder).frame().live);
        assert(builder.frame().live64 =~= old(builder).frame().live64);
        assert(builder.frame().ctrl =~= old(builder).frame().ctrl);
    }
}

/// The code that [`gen_xor32`] appends.
pub open spec fn gen_xor32_code(dest_operand: WasmLocal, source_operand: LocalOrImmedate) -> Seq<Op> {
    seq![Op::GetLocal(dest_operand), operand_op(source_operand), Op::XorI32, Op::SetLocal(dest_operand), Op::SetLastResult(dest_operand), Op::SetLastOpSize(OPSIZE_32), Op::SetFlagsChanged(FLAGS_ALL & !FLAG_CARRY & !FLAG_OVERFLOW & !FLAG_ADJUST), Op::ClearFlagsBits(FLAG_CARRY | FLAG_OVERFLOW | FLAG_ADJUST)]
}

/// `dest = dest ^ source`; carry, overflow and adjust become zero.
pub fn gen_xor32(builder: &mut WasmBuilder, dest_operand: &WasmLocal, source_operand: &LocalOrImmedate)
    requires
        ready(*old(builder), 32),
        usable(old(builder).frame(), *dest_operand),
        operand_usable(old(builder).frame(), *source_operand),
    ensures
        builder_emits(*old(builder), *final(builder), gen_xor32_code(*dest_operand, *source_operand), 0),
        restores_by(*old(builder), *final(builder), 0),
{
    builder.emit(Op::GetLocal(*dest_operand));
    source_operand.gen_get(builder);
    builder.emit(Op::XorI32);
    builder.emit(Op::SetLocal(*dest_operand));
    builder.emit(Op::SetLastResult(*dest_operand));
    builder.emit(Op::SetLastOpSize(OPSIZE_32));
    builder.emit(Op::SetFlagsChanged(FLAGS_ALL & !FLAG_CARRY & !FLAG_OVERFLOW & !FLAG_ADJUST));
    builder.emit(Op::ClearFlagsBits(FLAG_CARRY | FLAG_OVERFLOW | FLAG_ADJUST));
    proof {
        assert(builder.code@ =~= old(builder).code@ + gen_xor32_code(*dest_operand, *source_operand));
        assert(builder.frame().live =~= old(builder).frame().live);
        assert(builder.frame().live64 =~= old(builder).frame().live64);
        assert(builder.frame().ctrl =~= old(builder).frame().ctrl);
    }
}

/// The code that [`gen_imul_reg32`] appends.
pub open spec fn gen_imul_reg32_code(dest_operand: WasmLocal, source_operand: LocalOrImmedate) -> Seq<Op> {
    seq![Op::GetLocal(dest_operand), operand_op(source_operand), Op::CallFn2Ret("imul_reg32"), Op::SetLocal(dest_operand)]
}

/// `dest = dest * source` (signed) through the runtime helper.
pub fn gen_imul_reg32(builder: &mut WasmBuilder, dest_operand: &WasmLocal, source_operand: &LocalOrImmedate)
    requires
        ready(*old(builder), 32),
        usable(old(builder).frame(), *dest_operand),
        operand_usable(old(builder).frame(), *source_operand),
    ensures
        builder_emits(*old(builder), *final(builder), gen_imul_reg32_code(*dest_operand, *source_operand), 0),
        restores_by(*old(builder), *final(builder), 0),
{
    builder.emit(Op::GetLocal(*dest_operand));
    source_operand.gen_get(builder);
    builder.emit(Op::CallFn2Ret("imul_reg32"));
    builder.emit(Op::SetLocal(*dest_operand));
    proof {
        assert(builder.code@ =~= old(builder).code@ + gen_imul_reg32_code(*dest_operand, *source_operand));
        assert(builder.frame().live =~= old(builder).frame().live);
        assert(builder.frame().live64 =~= old(builder).frame().live64);
        assert(builder.frame().ctrl =~= old(builder).frame().ctrl);
    }
}

/// The code that [`gen_bt`] appends.
pub open spec fn gen_bt_code(bit_base: WasmLocal, bit_offset: LocalOrImmedate, offset_mask: u32) -> Seq<Op> {
    seq![Op::ConstGlobal(GlobalPointer::Flags), Op::LoadAlignedI32(GlobalPointer::Flags), Op::ConstI32(NOT_CARRY), Op::AndI32, Op::GetLocal(bit_base)] + bit_offset_code(bit_offset, offset_mask) + seq![Op::ShrUI32, Op::ConstI32(1), Op::AndI32, Op::OrI32, Op::StoreAlignedI32(0), Op::ConstGlobal(GlobalPointer::FlagsChanged), Op::LoadAlignedI32(GlobalPointer::FlagsChanged), Op::ConstI32(NOT_CARRY), Op::AndI32, Op::StoreAlignedI32(0)]
}

/// Copies bit `offset & offset_mask` of `bit_base` into the carry flag and marks the
/// carry flag as computed.
#[verifier::rlimit(40)]
pub fn gen_bt(builder: &mut WasmBuilder, bit_base: &WasmLocal, bit_offset: &LocalOrImmedate, offset_mask: u32)
    requires
        ready(*old(builder), 32),
        usable(old(builder).frame(), *bit_base),
        operand_usable(old(builder).frame(), *bit_offset),
    ensures
        builder_emits(*old(builder), *final(builder), gen_bt_code(*bit_base, *bit_offset, offset_mask), 0),
        restores_by(*old(builder), *final(builder), 0),
{
    builder.emit(Op::ConstGlobal(GlobalPointer::Flags));
    builder.emit(Op::LoadAlignedI32(GlobalPointer::Flags));
    builder.emit(Op::ConstI32(NOT_CARRY));
    builder.emit(Op::AndI32);
    builder.emit(Op::GetLocal(*bit_base));
    proof { assert(builder.code@ =~= old(builder).code@ + seq![Op::ConstGlobal(GlobalPointer::Flags), Op::LoadAlignedI32(GlobalPointer::Flags), Op::ConstI32(NOT_CARRY), Op::AndI32, Op::GetLocal(*bit_base)]); }
    gen_bit_offset(builder, bit_offset, offset_mask);
    proof { assert(builder.code@ =~= old(builder).code@ + seq![Op::ConstGlobal(GlobalPointer::Flags), Op::LoadAlignedI32(GlobalPointer::Flags), Op::ConstI32(NOT_CARRY), Op::AndI32, Op::GetLocal(*bit_base)] + bit_offset_code(*bit_offset, offset_mask)); }
    builder.emit(Op::ShrUI32);
    builder.emit(Op::ConstI32(1));
    builder.emit(Op::AndI32);
    builder.emit(Op::OrI32);
    builder.emit(Op::StoreAlignedI32(0));
    builder.emit(Op::ConstGlobal(GlobalPointer::FlagsChanged));
    builder.emit(Op::LoadAlignedI32(GlobalPointer::FlagsChanged));
    builder.emit(Op::ConstI32(NOT_CARRY));
    builder.emit(Op::AndI32);
    builder.emit(Op::StoreAlignedI32(0));
    proof {
        assert(builder.code@ =~= old(builder).code@ + gen_bt_code(*bit_base, *bit_offset, offset_mask));
        assert(builder.frame().live =~= old(builder).frame().live);
        assert(builder.frame().live64 =~= old(builder).frame().live64);
        assert(builder.frame().ctrl =~= old(builder).frame().ctrl);
    }
}

/// The code that [`gen_inc`] appends.
pub open spec fn gen_inc_code(dest_operand: WasmLocal, size: i32) -> Seq<Op> {
    seq![Op::ConstGlobal(GlobalPointer::Flags), Op::LoadAlignedI32(GlobalPointer::Flags), Op::ConstI32(NOT_CARRY), Op::AndI32, Op::GetCf, Op::OrI32, Op::StoreAlignedI32(0), Op::ConstGlobal(GlobalPointer::LastOp1), Op::GetLocal(dest_operand)] + (if size == OPSIZE_8 || size == OPSIZE_16 { seq![Op::ConstI32(if size == OPSIZE_8 { 0xFF } else { 0xFFFF }), Op::AndI32] } else { Seq::<Op>::empty() }) + seq![Op::StoreAlignedI32(0), Op::GetLocal(dest_operand), Op::ConstI32(1), Op::AddI32] + (if size == OPSIZE_16 { seq![Op::SetReg16Local(dest_operand)] } else { seq![Op::SetLocal(dest_operand)] }) + seq![Op::ConstGlobal(GlobalPointer::LastResult), Op::GetLocal(dest_operand)] + (if size == OPSIZE_16 { seq![Op::ConstI32(0xFFFF), Op::AndI32] } else { Seq::<Op>::empty() }) + seq![Op::StoreAlignedI32(0), Op::SetLastOpSize(size), Op::SetFlagsChanged(FLAGS_ALL & !FLAG_CARRY)]
}

/// Increments `dest` at the operand size; the carry flag keeps its value.
#[verifier::rlimit(40)]
pub(crate) fn gen_inc(builder: &mut WasmBuilder, dest_operand: &WasmLocal, size: i32)
    requires
        ready(*old(builder), 32),
        usable(old(builder).frame(), *dest_operand),
    ensures
        builder_emits(*old(builder), *final(builder), gen_inc_code(*dest_operand, size), 0),
        restores_by(*old(builder), *final(builder), 0),
{
    builder.emit(Op::ConstGlobal(GlobalPointer::Flags));
    builder.emit(Op::LoadAlignedI32(GlobalPointer::Flags));
    builder.emit(Op::ConstI32(NOT_CARRY));
    builder.emit(Op::AndI32);
    builder.emit(Op::GetCf);
    builder.emit(Op::OrI32);
    builder.emit(Op::StoreAlignedI32(0));
    builder.emit(Op::ConstGlobal(GlobalPointer::LastOp1));
    builder.emit(Op::GetLocal(*dest_operand));
    proof { assert(builder.code@ =~= old(builder).code@ + seq![Op::ConstGlobal(GlobalPointer::Flags), Op::LoadAlignedI32(GlobalPointer::Flags), Op::ConstI32(NOT_CARRY), Op::AndI32, Op::GetCf, Op::OrI32, Op::StoreAlignedI32(0), Op::ConstGlobal(GlobalPointer::LastOp1), Op::GetLocal(*dest_operand)]); }
    if size == OPSIZE_8 || size == OPSIZE_16 {
        builder.emit(Op::ConstI32(if size == OPSIZE_8 { 0xFF } else { 0xFFFF }));
        builder.emit(Op::AndI32);
        proof { assert(builder.code@ =~= old(builder).code@ + seq![Op::ConstGlobal(GlobalPointer::Flags), Op::LoadAlignedI32(GlobalPointer::Flags), Op::ConstI32(NOT_CARRY), Op::AndI32, Op::GetCf, Op::OrI32, Op::StoreAlignedI32(0), Op::ConstGlobal(GlobalPointer::LastOp1), Op::GetLocal(*dest_operand)] + seq![Op::ConstI32(if size == OPSIZE_8 { 0xFF } else { 0xFFFF }), Op::AndI32]); }
    } else {
        proof { assert(builder.code@ =~= old(builder).code@ + seq![Op::ConstGlobal(GlobalPointer::Flags), Op::LoadAlignedI32(GlobalPointer::Flags), Op::ConstI32(NOT_CARRY), Op::AndI32, Op::GetCf, Op::OrI32, Op::StoreAlignedI32(0), Op::ConstGlobal(GlobalPointer::LastOp1), Op::GetLocal(*dest_operand)]); }
    }
    proof { assert(builder.code@ =~= old(builder).code@ + seq![Op::ConstGlobal(GlobalPointer::Flags), Op::LoadAlignedI32(GlobalPointer::Flags), Op::ConstI32(NOT_CARRY), Op::AndI32, Op::GetCf, Op::OrI32, Op::StoreAlignedI32(0), Op::ConstGlobal(GlobalPointer::LastOp1), Op::GetLocal(*dest_operand)] + (if size == OPSIZE_8 || size == OPSIZE_16 { seq![Op::ConstI32(if size == OPSIZE_8 { 0xFF } else { 0xFFFF }), Op::AndI32] } else { Seq::<Op>::empty() })); }
    builder.emit(Op::StoreAlignedI32(0));
    builder.emit(Op::GetLocal(*dest_operand));
    builder.emit(Op::ConstI32(1));
    builder.emit(Op::AddI32);
    proof { assert(builder.code@ =~= old(builder).code@ + seq![Op::ConstGlobal(GlobalPointer::Flags), Op::LoadAlignedI32(GlobalPointer::Flags), Op::ConstI32(NOT_CARRY), Op::AndI32, Op::GetCf, Op::OrI32, Op::StoreAlignedI32(0), Op::ConstGlobal(GlobalPointer::LastOp1), Op::GetLocal(*dest_operand)] + (if size == OPSIZE_8 || size == OPSIZE_16 { seq![Op::ConstI32(if size == OPSIZE_8 { 0xFF } else { 0xFFFF }), Op::AndI32] } else { Seq::<Op>::empty() }) + seq![Op::StoreAlignedI32(0), Op::GetLocal(*dest_operand), Op::ConstI32(1), Op::AddI32]); }
    if size == OPSIZE_16 {
        builder.emit(Op::SetReg16Local(*dest_operand));
        proof { assert(builder.code@ =~= old(builder).code@ + seq![Op::ConstGlobal(GlobalPointer::Flags), Op::LoadAlignedI32(GlobalPointer::Flags), Op::ConstI32(NOT_CARRY), Op::AndI32, Op::GetCf, Op::OrI32, Op::StoreAlignedI32(0), Op::ConstGlobal(GlobalPointer::LastOp1), Op::GetLocal(*dest_operand)] + (if size == OPSIZE_8 || size == OPSIZE_16 { seq![Op::ConstI32(if size == OPSIZE_8 { 0xFF } else { 0xFFFF }), Op::AndI32] } else { Seq::<Op>::empty() }) + seq![Op::StoreAlignedI32(0), Op::GetLocal(*dest_operand), Op::ConstI32(1), Op::AddI32] + seq![Op::SetReg16Local(*dest_operand)]); }
    } else {
        builder.emit(Op::SetLocal(*dest_operand));
        proof { assert(builder.code@ =~= old(builder).code@ + seq![Op::ConstGlobal(GlobalPointer::Flags), Op::LoadAlignedI32(GlobalPointer::Flags), Op::ConstI32(NOT_CARRY), Op::AndI32, Op::GetCf, Op::OrI32, Op::StoreAlignedI32(0), Op::ConstGlobal(GlobalPointer::LastOp1), Op::GetLocal(*dest_operand)] + (if size == OPSIZE_8 || size == OPSIZE_16 { seq![Op::ConstI32(if size == OPSIZE_8 { 0xFF } else { 0xFFFF }), Op::AndI32] } else { Seq::<Op>::empty() }) + seq![Op::StoreAlignedI32(0), Op::GetLocal(*dest_operand), Op::ConstI32(1), Op::AddI32] + seq![Op::SetLocal(*dest_operand)]); }
    }
    proof { assert(builder.code@ =~= old(builder).code@ + seq![Op::ConstGlobal(GlobalPointer::Flags), Op::LoadAlignedI32(GlobalPointer::Flags), Op::ConstI32(NOT_CARRY), Op::AndI32, Op::GetCf, Op::OrI32, Op::StoreAlignedI32(0), Op::ConstGlobal(GlobalPointer::LastOp1), Op::GetLocal(*dest_operand)] + (if size == OPSIZE_8 || size == OPSIZE_16 { seq![Op::ConstI32(if size == OPSIZE_8 { 0xFF } else { 0xFFFF }), Op::AndI32] } else { Seq::<Op>::empty() }) + seq![Op::StoreAlignedI32(0), Op::GetLocal(*dest_operand), Op::ConstI32(1), Op::AddI32] + (if size == OPSIZE_16 { seq![Op::SetReg16Local(*dest_operand)] } else { seq![Op::SetLocal(*dest_operand)] })); }
    builder.emit(Op::ConstGlobal(GlobalPointer::LastResult));
    builder.emit(Op::GetLocal(*dest_operand));
    proof { assert(builder.code@ =~= old(builder).code@ + seq![Op::ConstGlobal(GlobalPointer::Flags), Op::LoadAlignedI32(GlobalPointer::Flags), Op::ConstI32(NOT_CARRY), Op::AndI32, Op::GetCf, Op::OrI32, Op::StoreAlignedI32(0), Op::ConstGlobal(GlobalPointer::LastOp1), Op::GetLocal(*dest_operand)] + (if size == OPSIZE_8 || size == OPSIZE_16 { seq![Op::ConstI32(if size == OPSIZE_8 { 0xFF } else { 0xFFFF }), Op::AndI32] } else { Seq::<Op>::empty() }) + seq![Op::StoreAlignedI32(0), Op::GetLocal(*dest_operand), Op::ConstI32(1), Op::AddI32] + (if size == OPSIZE_16 { seq![Op::SetReg16Local(*dest_operand)] } else { seq![Op::SetLocal(*dest_operand)] }) + seq![Op::ConstGlobal(GlobalPointer::LastResult), Op::GetLocal(*dest_operand)]); }
    if size == OPSIZE_16 {
        builder.emit(Op::ConstI32(0xFFFF));
        builder.emit(Op::AndI32);
        proof { assert(builder.code@ =~= old(builder).code@ + seq![Op::ConstGlobal(GlobalPointer::Flags), Op::LoadAlignedI32(GlobalPointer::Flags), Op::ConstI32(NOT_CARRY), Op::AndI32, Op::GetCf, Op::OrI32, Op::StoreAlignedI32(0), Op::ConstGlobal(GlobalPointer::LastOp1), Op::GetLocal(*dest_operand)] + (if size == OPSIZE_8 || size == OPSIZE_16 { seq![Op::ConstI32(if size == OPSIZE_8 { 0xFF } else { 0xFFFF }), Op::AndI32] } else { Seq::<Op>::empty() }) + seq![Op::StoreAlignedI32(0), Op::GetLocal(*dest_operand), Op::ConstI32(1), Op::AddI32] + (if size == OPSIZE_16 { seq![Op::SetReg16Local(*dest_operand)] } else { seq![Op::SetLocal(*dest_operand)] }) + seq![Op::ConstGlobal(GlobalPointer::LastResult), Op::GetLocal(*dest_operand)] + seq![Op::ConstI32(0xFFFF), Op::AndI32]); }
    } else {
        proof { assert(builder.code@ =~= old(builder).code@ + seq![Op::ConstGlobal(GlobalPointer::Flags), Op::LoadAlignedI32(GlobalPointer::Flags), Op::ConstI32(NOT_CARRY), Op::AndI32, Op::GetCf, Op::OrI32, Op::StoreAlignedI32(0), Op::ConstGlobal(GlobalPointer::LastOp1), Op::GetLocal(*dest_operand)] + (if size == OPSIZE_8 || size == OPSIZE_16 { seq![Op::ConstI32(if size == OPSIZE_8 { 0xFF } else { 0xFFFF }), Op::AndI32] } else { Seq::<Op>::empty() }) + seq![Op::StoreAlignedI32(0), Op::GetLocal(*dest_operand), Op::ConstI32(1), Op::AddI32] + (if size == OPSIZE_16 { seq![Op::SetReg16Local(*dest_operand)] } else { seq![Op::SetLocal(*dest_operand)] }) + seq![Op::ConstGlobal(GlobalPointer::LastResult), Op::GetLocal(*dest_operand)]); }
    }
    proof { assert(builder.code@ =~= old(builder).code@ + seq![Op::ConstGlobal(GlobalPointer::Flags), Op::LoadAlignedI32(GlobalPointer::Flags), Op::ConstI32(NOT_CARRY), Op::AndI32, Op::GetCf, Op::OrI32, Op::StoreAlignedI32(0), Op::ConstGlobal(GlobalPointer::LastOp1), Op::GetLocal(*dest_operand)] + (if size == OPSIZE_8 || size == OPSIZE_16 { seq![Op::ConstI32(if size == OPSIZE_8 { 0xFF } else { 0xFFFF }), Op::AndI32] } else { Seq::<Op>::empty() }) + seq![Op::StoreAlignedI32(0), Op::GetLocal(*dest_operand), Op::ConstI32(1), Op::AddI32] + (if size == OPSIZE_16 { seq![Op::SetReg16Local(*dest_operand)] } else { seq![Op::SetLocal(*dest_operand)] }) + seq![Op::ConstGlobal(GlobalPointer::LastResult), Op::GetLocal(*dest_operand)] + (if size == OPSIZE_16 { seq![Op::ConstI32(0xFFFF), Op::AndI32] } else { Seq::<Op>::empty() })); }
    builder.emit(Op::StoreAlignedI32(0));
    builder.emit(Op::SetLastOpSize(size));
    builder.emit(Op::SetFlagsChanged(FLAGS_ALL & !FLAG_CARRY));
    proof {
        assert(builder.code@ =~= old(builder).code@ + gen_inc_code(*dest_operand, size));
        assert(builder.frame().live =~= old(builder).frame().live);
        assert(builder.frame().live64 =~= old(builder).frame().live64);
        assert(builder.frame().ctrl =~= old(builder).frame().ctrl);
    }
}

/// The code that [`gen_inc16`] appends.
pub open spec fn gen_inc16_code(dest_operand: WasmLocal) -> Seq<Op> {
    gen_inc_code(dest_operand, OPSIZE_16)
}

/// `gen_inc` at operand size 16.
pub(crate) fn gen_inc16(builder: &mut WasmBuilder, dest_operand: &WasmLocal)
    requires
        ready(*old(builder), 32),
        usable(old(builder).frame(), *dest_operand),
    ensures
        builder_emits(*old(builder), *final(builder), gen_inc16_code(*dest_operand), 0),
        restores_by(*old(builder), *final(builder), 0),
{
    gen_inc(builder, dest_operand, OPSIZE_16);
    proof {
        assert(builder.code@ =~= old(builder).code@ + gen_inc16_code(*dest_operand));
        assert(builder.frame().live =~= old(builder).frame().live);
        assert(builder.frame().live64 =~= old(builder).frame().live64);
        assert(builder.frame().ctrl =~= old(builder).frame().ctrl);
    }
}

/// The code that [`gen_inc32`] appends.
pub open spec fn gen_inc32_code(dest_operand: WasmLocal) -> Seq<Op> {
    gen_inc_code(dest_operand, OPSIZE_32)
}

/// `gen_inc` at operand size 32.
pub(crate) fn gen_inc32(builder: &mut WasmBuilder, dest_operand: &WasmLocal)
    requires
        ready(*old(builder), 32),
        usable(old(builder).frame(), *dest_operand),
    ensures
        builder_emits(*old(builder), *final(builder), gen_inc32_code(*dest_operand), 0),
        restores_by(*old(builder), *final(builder), 0),
{
    gen_inc(builder, dest_operand, OPSIZE_32);
    proof {
        assert(builder.code@ =~= old(builder).code@ + gen_inc32_code(*dest_operand));
        assert(builder.frame().live =~= old(builder).frame().live);
        assert(builder.frame().live64 =~= old(builder).frame().live64);
        assert(builder.frame().ctrl =~= old(builder).frame().ctrl);
    }
}

/// The code that [`gen_dec`] appends.
pub open spec fn gen_dec_code(dest_operand: WasmLocal, size: i32) -> Seq<Op> {
    seq![Op::ConstGlobal(GlobalPointer::Flags), Op::LoadAlignedI32(GlobalPointer::Flags), Op::ConstI32(NOT_CARRY), Op::AndI32, Op::GetCf, Op::OrI32, Op::StoreAlignedI32(0), Op::ConstGlobal(GlobalPointer::LastOp1), Op::GetLocal(dest_operand)] + (if size == OPSIZE_8 || size == OPSIZE_16 { seq![Op::ConstI32(if size == OPSIZE_8 { 0xFF } else { 0xFFFF }), Op::AndI32] } else { Seq::<Op>::empty() }) + seq![Op::StoreAlignedI32(0), Op::GetLocal(dest_operand), Op::ConstI32(1), Op::SubI32] + (if size == OPSIZE_16 { seq![Op::SetReg16Local(dest_operand)] } else { seq![Op::SetLocal(dest_operand)] }) + seq![Op::ConstGlobal(GlobalPointer::LastResult), Op::GetLocal(dest_operand)] + (if size == OPSIZE_16 { seq![Op::ConstI32(0xFFFF), Op::AndI32] } else { Seq::<Op>::empty() }) + seq![Op::StoreAlignedI32(0), Op::SetLastOpSize(size), Op::SetFlagsChanged(FLAGS_ALL & !FLAG_CARRY | FLAG_SUB)]
}

/// Decrements `dest` at the operand size; the carry flag keeps its value.
#[verifier::rlimit(40)]
pub(crate) fn gen_dec(builder: &mut WasmBuilder, dest_operand: &WasmLocal, size: i32)
    requires
        ready(*old(builder), 32),
        usable(old(builder).frame(), *dest_operand),
    ensures
        builder_emits(*old(builder), *final(builder), gen_dec_code(*dest_operand, size), 0),
        restores_by(*old(builder), *final(builder), 0),
{
    builder.emit(Op::ConstGlobal(GlobalPointer::Flags));
    builder.emit(Op::LoadAlignedI32(GlobalPointer::Flags));
    builder.emit(Op::ConstI32(NOT_CARRY));
    builder.emit(Op::AndI32);
    builder.emit(Op::GetCf);
    builder.emit(Op::OrI32);
    builder.emit(Op::StoreAlignedI32(0));
    builder.emit(Op::ConstGlobal(GlobalPointer::LastOp1));
    builder.emit(Op::GetLocal(*dest_operand));
    proof { assert(builder.code@ =~= old(builder).code@ + seq![Op::ConstGlobal(GlobalPointer::Flags), Op::LoadAlignedI32(GlobalPointer::Flags), Op::ConstI32(NOT_CARRY), Op::AndI32, Op::GetCf, Op::OrI32, Op::StoreAlignedI32(0), Op::ConstGlobal(GlobalPointer::LastOp1), Op::GetLocal(*dest_operand)]); }
    if size == OPSIZE_8 || size == OPSIZE_16 {
        builder.emit(Op::ConstI32(if size == OPSIZE_8 { 0xFF } else { 0xFFFF }));
        builder.emit(Op::AndI32);
        proof { assert(builder.code@ =~= old(builder).code@ + seq![Op::ConstGlobal(GlobalPointer::Flags), Op::LoadAlignedI32(GlobalPointer::Flags), Op::ConstI32(NOT_CARRY), Op::AndI32, Op::GetCf, Op::OrI32, Op::StoreAlignedI32(0), Op::ConstGlobal(GlobalPointer::LastOp1), Op::GetLocal(*dest_operand)] + seq![Op::ConstI32(if size == OPSIZE_8 { 0xFF } else { 0xFFFF }), Op::AndI32]); }
    } else {
        proof { assert(builder.code@ =~= old(builder).code@ + seq![Op::ConstGlobal(GlobalPointer::Flags), Op::LoadAlignedI32(GlobalPointer::Flags), Op::ConstI32(NOT_CARRY), Op::AndI32, Op::GetCf, Op::OrI32, Op::StoreAlignedI32(0), Op::ConstGlobal(GlobalPointer::LastOp1), Op::GetLocal(*dest_operand)]); }
    }
    proof { assert(builder.code@ =~= old(builder).code@ + seq![Op::ConstGlobal(GlobalPointer::Flags), Op::LoadAlignedI32(GlobalPointer::Flags), Op::ConstI32(NOT_CARRY), Op::AndI32, Op::GetCf, Op::OrI32, Op::StoreAlignedI32(0), Op::ConstGlobal(GlobalPointer::LastOp1), Op::GetLocal(*dest_operand)] + (if size == OPSIZE_8 || size == OPSIZE_16 { seq![Op::ConstI32(if size == OPSIZE_8 { 0xFF } else { 0xFFFF }), Op::AndI32] } else { Seq::<Op>::empty() })); }
    builder.emit(Op::StoreAlignedI32(0));
    builder.emit(Op::GetLocal(*dest_operand));
    builder.emit(Op::ConstI32(1));
    builder.emit(Op::SubI32);
    proof { assert(builder.code@ =~= old(builder).code@ + seq![Op::ConstGlobal(GlobalPointer::Flags), Op::LoadAlignedI32(GlobalPointer::Flags), Op::ConstI32(NOT_CARRY), Op::AndI32, Op::GetCf, Op::OrI32, Op::StoreAlignedI32(0), Op::ConstGlobal(GlobalPointer::LastOp1), Op::GetLocal(*dest_operand)] + (if size == OPSIZE_8 || size == OPSIZE_16 { seq![Op::ConstI32(if size == OPSIZE_8 { 0xFF } else { 0xFFFF }), Op::AndI32] } else { Seq::<Op>::empty() }) + seq![Op::StoreAlignedI32(0), Op::GetLocal(*dest_operand), Op::ConstI32(1), Op::SubI32]); }
    if size == OPSIZE_16 {
        builder.emit(Op::SetReg16Local(*dest_operand));
        proof { assert(builder.code@ =~= old(builder).code@ + seq![Op::ConstGlobal(GlobalPointer::Flags), Op::LoadAlignedI32(GlobalPointer::Flags), Op::ConstI32(NOT_CARRY), Op::AndI32, Op::GetCf, Op::OrI32, Op::StoreAlignedI32(0), Op::ConstGlobal(GlobalPointer::LastOp1), Op::GetLocal(*dest_operand)] + (if size == OPSIZE_8 || size == OPSIZE_16 { seq![Op::ConstI32(if size == OPSIZE_8 { 0xFF } else { 0xFFFF }), Op::AndI32] } else { Seq::<Op>::empty() }) + seq![Op::StoreAlignedI32(0), Op::GetLocal(*dest_operand), Op::ConstI32(1), Op::SubI32] + seq![Op::SetReg16Local(*dest_operand)]); }
    } else {
        builder.emit(Op::SetLocal(*dest_operand));
        proof { assert(builder.code@ =~= old(builder).code@ + seq![Op::ConstGlobal(GlobalPointer::Flags), Op::LoadAlignedI32(GlobalPointer::Flags), Op::ConstI32(NOT_CARRY), Op::AndI32, Op::GetCf, Op::OrI32, Op::StoreAlignedI32(0), Op::ConstGlobal(GlobalPointer::LastOp1), Op::GetLocal(*dest_operand)] + (if size == OPSIZE_8 || size == OPSIZE_16 { seq![Op::ConstI32(if size == OPSIZE_8 { 0xFF } else { 0xFFFF }), Op::AndI32] } else { Seq::<Op>::empty() }) + seq![Op::StoreAlignedI32(0), Op::GetLocal(*dest_operand), Op::ConstI32(1), Op::SubI32] + seq![Op::SetLocal(*dest_operand)]); }
    }
    proof { assert(builder.code@ =~= old(builder).code@ + seq![Op::ConstGlobal(GlobalPointer::Flags), Op::LoadAlignedI32(GlobalPointer::Flags), Op::ConstI32(NOT_CARRY), Op::AndI32, Op::GetCf, Op::OrI32, Op::StoreAlignedI32(0), Op::ConstGlobal(GlobalPointer::LastOp1), Op::GetLocal(*dest_operand)] + (if size == OPSIZE_8 || size == OPSIZE_16 { seq![Op::ConstI32(if size == OPSIZE_8 { 0xFF } else { 0xFFFF }), Op::AndI32] } else { Seq::<Op>::empty() }) + seq![Op::StoreAlignedI32(0), Op::GetLocal(*dest_operand), Op::ConstI32(1), Op::SubI32] + (if size == OPSIZE_16 { seq![Op::SetReg16Local(*dest_operand)] } else { seq![Op::SetLocal(*dest_operand)] })); }
    builder.emit(Op::ConstGlobal(GlobalPointer::LastResult));
    builder.emit(Op::GetLocal(*dest_operand));
    proof { assert(builder.code@ =~= old(builder).code@ + seq![Op::ConstGlobal(GlobalPointer::Flags), Op::LoadAlignedI32(GlobalPointer::Flags), Op::ConstI32(NOT_CARRY), Op::AndI32, Op::GetCf, Op::OrI32, Op::StoreAlignedI32(0), Op::ConstGlobal(GlobalPointer::LastOp1), Op::GetLocal(*dest_operand)] + (if size == OPSIZE_8 || size == OPSIZE_16 { seq![Op::ConstI32(if size == OPSIZE_8 { 0xFF } else { 0xFFFF }), Op::AndI32] } else { Seq::<Op>::empty() }) + seq![Op::StoreAlignedI32(0), Op::GetLocal(*dest_operand), Op::ConstI32(1), Op::SubI32] + (if size == OPSIZE_16 { seq![Op::SetReg16Local(*dest_operand)] } else { seq![Op::SetLocal(*dest_operand)] }) + seq![Op::ConstGlobal(GlobalPointer::LastResult), Op::GetLocal(*dest_operand)]); }
    if size == OPSIZE_16 {
        builder.emit(Op::ConstI32(0xFFFF));
        builder.emit(Op::AndI32);
        proof { assert(builder.code@ =~= old(builder).code@ + seq![Op::ConstGlobal(GlobalPointer::Flags), Op::LoadAlignedI32(GlobalPointer::Flags), Op::ConstI32(NOT_CARRY), Op::AndI32, Op::GetCf, Op::OrI32, Op::StoreAlignedI32(0), Op::ConstGlobal(GlobalPointer::LastOp1), Op::GetLocal(*dest_operand)] + (if size == OPSIZE_8 || size == OPSIZE_16 { seq![Op::ConstI32(if size == OPSIZE_8 { 0xFF } else { 0xFFFF }), Op::AndI32] } else { Seq::<Op>::empty() }) + seq![Op::StoreAlignedI32(0), Op::GetLocal(*dest_operand), Op::ConstI32(1), Op::SubI32] + (if size == OPSIZE_16 { seq![Op::SetReg16Local(*dest_operand)] } else { seq![Op::SetLocal(*dest_operand)] }) + seq![Op::ConstGlobal(GlobalPointer::LastResult), Op::GetLocal(*dest_operand)] + seq![Op::ConstI32(0xFFFF), Op::AndI32]); }
    } else {
        proof { assert(builder.code@ =~= old(builder).code@ + seq![Op::ConstGlobal(GlobalPointer::Flags), Op::LoadAlignedI32(GlobalPointer::Flags), Op::ConstI32(NOT_CARRY), Op::AndI32, Op::GetCf, Op::OrI32, Op::StoreAlignedI32(0), Op::ConstGlobal(GlobalPointer::LastOp1), Op::GetLocal(*dest_operand)] + (if size == OPSIZE_8 || size == OPSIZE_16 { seq![Op::ConstI32(if size == OPSIZE_8 { 0xFF } else { 0xFFFF }), Op::AndI32] } else { Seq::<Op>::empty() }) + seq![Op::StoreAlignedI32(0), Op::GetLocal(*dest_operand), Op::ConstI32(1), Op::SubI32] + (if size == OPSIZE_16 { seq![Op::SetReg16Local(*dest_operand)] } else { seq![Op::SetLocal(*dest_operand)] }) + seq![Op::ConstGlobal(GlobalPointer::LastResult), Op::GetLocal(*dest_operand)]); }
    }
    proof { assert(builder.code@ =~= old(builder).code@ + seq![Op::ConstGlobal(GlobalPointer::Flags), Op::LoadAlignedI32(GlobalPointer::Flags), Op::ConstI32(NOT_CARRY), Op::AndI32, Op::GetCf, Op::OrI32, Op::StoreAlignedI32(0), Op::ConstGlobal(GlobalPointer::LastOp1), Op::GetLocal(*dest_operand)] + (if size == OPSIZE_8 || size == OPSIZE_16 { seq![Op::ConstI32(if size == OPSIZE_8 { 0xFF } else { 0xFFFF }), Op::AndI32] } else { Seq::<Op>::empty() }) + seq![Op::StoreAlignedI32(0), Op::GetLocal(*dest_operand), Op::ConstI32(1), Op::SubI32] + (if size == OPSIZE_16 { seq![Op::SetReg16Local(*dest_operand)] } else { seq![Op::SetLocal(*dest_operand)] }) + seq![Op::ConstGlobal(GlobalPointer::LastResult), Op::GetLocal(*dest_operand)] + (if size == OPSIZE_16 { seq![Op::ConstI32(0xFFFF), Op::AndI32] } else { Seq::<Op>::empty() })); }
    builder.emit(Op::StoreAlignedI32(0));
    builder.emit(Op::SetLastOpSize(size));
    builder.emit(Op::SetFlagsChanged(FLAGS_ALL & !FLAG_CARRY | FLAG_SUB));
    proof {
        assert(builder.code@ =~= old(builder).code@ + gen_dec_code(*dest_operand, size));
        assert(builder.frame().live =~= old(builder).frame().live);
        assert(builder.frame().live64 =~= old(builder).frame().live64);
        assert(builder.frame().ctrl =~= old(builder).frame().ctrl);
    }
}

/// The code that [`gen_dec16`] appends.
pub open spec fn gen_dec16_code(dest_operand: WasmLocal) -> Seq<Op> {
    gen_dec_code(dest_operand, OPSIZE_16)
}

/// `gen_dec` at operand size 16.
pub(crate) fn gen_dec16(builder: &mut WasmBuilder, dest_operand: &WasmLocal)
    requires
        ready(*old(builder), 32),
        usable(old(builder).frame(), *dest_operand),
    ensures
        builder_emits(*old(builder), *final(builder), gen_dec16_code(*dest_operand), 0),
        restores_by(*old(builder), *final(builder), 0),
{
    gen_dec(builder, dest_operand, OPSIZE_16);
    proof {
        assert(builder.code@ =~= old(builder).code@ + gen_dec16_code(*dest_operand));
        assert(builder.frame().live =~= old(builder).frame().live);
        assert(builder.frame().live64 =~= old(builder).frame().live64);
        assert(builder.frame().ctrl =~= old(builder).frame().ctrl);
    }
}

/// The code that [`gen_dec32`] appends.
pub open spec fn gen_dec32_code(dest_operand: WasmLocal) -> Seq<Op> {
    gen_dec_code(dest_operand, OPSIZE_32)
}

/// `gen_dec` at operand size 32.
pub(crate) fn gen_dec32(builder: &mut WasmBuilder, dest_operand: &WasmLocal)
    requires
        ready(*old(builder), 32),
        usable(old(builder).frame(), *dest_operand),
    ensures
        builder_emits(*old(builder), *final(builder), gen_dec32_code(*dest_operand), 0),
        restores_by(*old(builder), *final(builder), 0),
{
    gen_dec(builder, dest_operand, OPSIZE_32);
    proof {
        assert(builder.code@ =~= old(builder).code@ + gen_dec32_code(*dest_operand));
        assert(builder.frame().live =~= old(builder).frame().live);
        assert(builder.frame().live64 =~= old(builder).frame().live64);
        assert(builder.frame().ctrl =~= old(builder).frame().ctrl);
    }
}

/// The code that [`gen_not16`] appends.
pub open spec fn gen_not16_code(dest_operand: WasmLocal) -> Seq<Op> {
    seq![Op::GetLocal(dest_operand), Op::CallFn1Ret("not16"), Op::SetReg16Local(dest_operand)]
}

/// `dest = not dest` at operand size 16 through the runtime helper.
pub(crate) fn gen_not16(builder: &mut WasmBuilder, dest_operand: &WasmLocal)
    requires
        ready(*old(builder), 32),
        usable(old(builder).frame(), *dest_operand),
    ensures
        builder_emits(*old(builder), *final(builder), gen_not16_code(*dest_operand), 0),
        restores_by(*old(builder), *final(builder), 0),
{
    builder.emit(Op::GetLocal(*dest_operand));
    builder.emit(Op::CallFn1Ret("not16"));
    builder.emit(Op::SetReg16Local(*dest_operand));
    proof {
        assert(builder.code@ =~= old(builder).code@ + gen_not16_code(*dest_operand));
        assert(builder.frame().live =~= old(builder).frame().live);
        assert(builder.frame().live64 =~= old(builder).frame().live64);
        assert(builder.frame().ctrl =~= old(builder).frame().ctrl);
    }
}

/// The code that [`gen_not32`] appends.
pub open spec fn gen_not32_code(dest_operand: WasmLocal) -> Seq<Op> {
    seq![Op::GetLocal(dest_operand), Op::CallFn1Ret("not32"), Op::SetLocal(dest_operand)]
}

/// `dest = not dest` at operand size 32 through the runtime helper.
pub(crate) fn gen_not32(builder: &mut WasmBuilder, dest_operand: &WasmLocal)
    requires
        ready(*old(builder), 32),
        usable(old(builder).frame(), *dest_operand),
    ensures
        builder_emits(*old(builder), *final(builder), gen_not32_code(*dest_operand), 0),
        restores_by(*old(builder), *final(builder), 0),
{
    builder.emit(Op::GetLocal(*dest_operand));
    builder.emit(Op::CallFn1Ret("not32"));
    builder.emit(Op::SetLocal(*dest_operand));
    proof {
        assert(builder.code@ =~= old(builder).code@ + gen_not32_code(*dest_operand));
        assert(builder.frame().live =~= old(builder).frame().live);
        assert(builder.frame().live64 =~= old(builder).frame().live64);
        assert(builder.frame().ctrl =~= old(builder).frame().ctrl);
    }
}

/// The code that [`gen_neg16`] appends.
pub open spec fn gen_neg16_code(dest_operand: WasmLocal) -> Seq<Op> {
    seq![Op::GetLocal(dest_operand), Op::CallFn1Ret("neg16"), Op::SetReg16Local(dest_operand)]
}

/// `dest = neg dest` at operand size 16 through the runtime helper.
pub(crate) fn gen_neg16(builder: &mut WasmBuilder, dest_operand: &WasmLocal)
    requires
        ready(*old(builder), 32),
        usable(old(builder).frame(), *dest_operand),
    ensures
        builder_emits(*old(builder), *final(builder), gen_neg16_code(*dest_operand), 0),
        restores_by(*old(builder), *final(builder), 0),
{
    builder.emit(Op::GetLocal(*dest_operand));
    builder.emit(Op::CallFn1Ret("neg16"));
    builder.emit(Op::SetReg16Local(*dest_operand));
    proof {
        assert(builder.code@ =~= old(builder).code@ + gen_neg16_code(*dest_operand));
        assert(builder.frame().live =~= old(builder).frame().live);
        assert(builder.frame().live64 =~= old(builder).frame().live64);
        assert(builder.frame().ctrl =~= old(builder).frame().ctrl);
    }
}

/// The code that [`gen_neg32`] appends.
pub open spec fn gen_neg32_code(dest_operand: WasmLocal) -> Seq<Op> {
    seq![Op::GetLocal(dest_operand), Op::CallFn1Ret("neg32"), Op::SetLocal(dest_operand)]
}

/// `dest = neg dest` at operand size 32 through the runtime helper.
pub(crate) fn gen_neg32(builder: &mut WasmBuilder, dest_operand: &WasmLocal)
    requires
        ready(*old(builder), 32),
        usable(old(builder).frame(), *dest_operand),
    ensures
        builder_emits(*old(builder), *final(builder), gen_neg32_code(*dest_operand), 0),
        restores_by(*old(builder), *final(builder), 0),
{
    builder.emit(Op::GetLocal(*dest_operand));
    builder.emit(Op::CallFn1Ret("neg32"));
    builder.emit(Op::SetLocal(*dest_operand));
    proof {
        assert(builder.code@ =~= old(builder).code@ + gen_neg32_code(*dest_operand));
        assert(builder.frame().live =~= old(builder).frame().live);
        assert(builder.frame().live64 =~= old(builder).frame().live64);
        assert(builder.frame().ctrl =~= old(builder).frame().ctrl);
    }
}

/// The code that [`gen_compare`] appends.
pub open spec fn gen_compare_code(test: bool, dest_operand: WasmLocal, source_operand: LocalOrImmedate, size: i32) -> Seq<Op> {
    (if test { gen_test_code(dest_operand, source_operand, size) } else { gen_cmp_code(dest_operand, source_operand, size) })
}

/// `gen_test` when `test` holds, else `gen_cmp`.
pub fn gen_compare(builder: &mut WasmBuilder, test: bool, dest_operand: &WasmLocal, source_operand: &LocalOrImmedate, size: i32)
    requires
        ready(*old(builder), 32),
        usable(old(builder).frame(), *dest_operand),
        operand_usable(old(builder).frame(), *source_operand),
    ensures
        builder_emits(*old(builder), *final(builder), gen_compare_code(test, *dest_operand, *source_operand, size), 0),
        restores_by(*old(builder), *final(builder), 0),
{
    if test {
        gen_test(builder, dest_operand, source_operand, size);
        proof { assert(builder.code@ =~= old(builder).code@ + gen_test_code(*dest_operand, *source_operand, size)); }
    } else {
        gen_cmp(builder, dest_operand, source_operand, size);
        proof { assert(builder.code@ =~= old(builder).code@ + gen_cmp_code(*dest_operand, *source_operand, size)); }
    }
    proof {
        assert(builder.code@ =~= old(builder).code@ + gen_compare_code(test, *dest_operand, *source_operand, size));
        assert(builder.frame().live =~= old(builder).frame().live);
        assert(builder.frame().live64 =~= old(builder).frame().live64);
        assert(builder.frame().ctrl =~= old(builder).frame().ctrl);
    }
}

/// The code that [`gen_xadd32`] appends.
pub open spec fn gen_xadd32_code(dest_operand: WasmLocal, r: u32, n: u32) -> Seq<Op> {
    seq![Op::GetLocal(WasmLocal::Register(r)), Op::SetNewLocal(n), Op::GetLocal(dest_operand), Op::SetReg32(r)] + gen_add32_code(dest_operand, LocalOrImmedate::WasmLocal(WasmLocal::Temp(n))) + seq![Op::FreeLocal(n)]
}

/// Exchanges `dest` with register `r` and stores their sum in `dest`.
pub(crate) fn gen_xadd32(ctx: &mut JitContext, dest_operand: &WasmLocal, r: u32)
    requires
        ready(old(ctx).builder, 16),
        usable(old(ctx).builder.frame(), *dest_operand),
        r < 8,
    ensures
        emits(*old(ctx), *final(ctx), gen_xadd32_code(*dest_operand, r, old(ctx).builder.next_local), 1),
        restores_by(old(ctx).builder, final(ctx).builder, 0),
{
    ctx.builder.emit(Op::GetLocal(WasmLocal::Register(r)));
    let tmp = ctx.builder.set_new_local();
    ctx.builder.emit(Op::GetLocal(*dest_operand));
    ctx.builder.emit(Op::SetReg32(r));
    proof { assert(ctx.builder.code@ =~= old(ctx).builder.code@ + seq![Op::GetLocal(WasmLocal::Register(r)), Op::SetNewLocal(old(ctx).builder.next_local), Op::GetLocal(*dest_operand), Op::SetReg32(r)]); }
    gen_add32(&mut ctx.builder, dest_operand, &LocalOrImmedate::WasmLocal(tmp));
    proof { assert(ctx.builder.code@ =~= old(ctx).builder.code@ + seq![Op::GetLocal(WasmLocal::Register(r)), Op::SetNewLocal(old(ctx).builder.next_local), Op::GetLocal(*dest_operand), Op::SetReg32(r)] + gen_add32_code(*dest_operand, LocalOrImmedate::WasmLocal(WasmLocal::Temp(old(ctx).builder.next_local)))); }
    ctx.builder.free_local(tmp);
    proof {
        assert(ctx.builder.code@ =~= old(ctx).builder.code@ + gen_xadd32_code(*dest_operand, r, old(ctx).builder.next_local));
        assert(ctx.builder.frame().live =~= old(ctx).builder.frame().live);
        assert(ctx.builder.frame().live64 =~= old(ctx).builder.frame().live64);
        assert(ctx.builder.frame().ctrl =~= old(ctx).builder.frame().ctrl);
    }
}

/// The code that [`gen_compare_exchange32`] appends.
pub open spec fn gen_compare_exchange32_code(r: u32, n: u32) -> Seq<Op> {
    seq![Op::SetNewLocal(n)] + gen_cmp_code(WasmLocal::Register(0), LocalOrImmedate::WasmLocal(WasmLocal::Temp(n)), OPSIZE_32) + seq![Op::GetZf, Op::IfI32, Op::GetReg32(r), Op::Else, Op::GetLocal(WasmLocal::Temp(n)), Op::SetReg32(EAX), Op::GetLocal(WasmLocal::Temp(n)), Op::BlockEnd, Op::FreeLocal(n)]
}

/// Compares the value on the stack with EAX; replaces it by register `r` when they are
/// equal, else loads it into EAX and leaves it.
pub(crate) fn gen_compare_exchange32(ctx: &mut JitContext, r: u32)
    requires
        ready(old(ctx).builder, 16),
        r < 8,
        old(ctx).builder.frame().depth >= base(old(ctx).builder.frame()) + 1,
    ensures
        emits(*old(ctx), *final(ctx), gen_compare_exchange32_code(r, old(ctx).builder.next_local), 1),
        restores_by(old(ctx).builder, final(ctx).builder, 0),
{
    let source = ctx.builder.set_new_local();
    proof { assert(ctx.builder.code@ =~= old(ctx).builder.code@ + seq![Op::SetNewLocal(old(ctx).builder.next_local)]); }
    gen_cmp32(&mut ctx.builder, &WasmLocal::Register(0), &LocalOrImmedate::WasmLocal(source));
    proof { assert(ctx.builder.code@ =~= old(ctx).builder.code@ + seq![Op::SetNewLocal(old(ctx).builder.next_local)] + gen_cmp_code(WasmLocal::Register(0), LocalOrImmedate::WasmLocal(WasmLocal::Temp(old(ctx).builder.next_local)), OPSIZE_32)); }
    ctx.builder.emit(Op::GetZf);
    ctx.builder.if_i32();
    ctx.builder.emit(Op::GetReg32(r));
    ctx.builder.else_();
    ctx.builder.emit(Op::GetLocal(source));
    ctx.builder.emit(Op::SetReg32(EAX));
    ctx.builder.emit(Op::GetLocal(source));
    ctx.builder.block_end();
    ctx.builder.free_local(source);
    proof {
        assert(ctx.builder.code@ =~= old(ctx).builder.code@ + gen_compare_exchange32_code(r, old(ctx).builder.next_local));
        assert(ctx.builder.frame().live =~= old(ctx).builder.frame().live);
        assert(ctx.builder.frame().live64 =~= old(ctx).builder.frame().live64);
        assert(ctx.builder.frame().ctrl =~= old(ctx).builder.frame().ctrl);
    }
}

/// The code that [`gen_mul32`] appends.
pub open spec fn gen_mul32_code(n: u32) -> Seq<Op> {
    seq![Op::ExtendUnsignedI32ToI64, Op::GetReg32(EAX), Op::ExtendUnsignedI32ToI64, Op::MulI64, Op::TeeNewLocalI64(n), Op::ConstI64(32), Op::ShrUI64, Op::WrapI64ToI32, Op::SetReg32(EDX), Op::GetLocalI64(n), Op::FreeLocalI64(n), Op::WrapI64ToI32, Op::SetReg32(EAX), Op::GetReg32(EDX), Op::IfVoid, Op::SetFlagsBits(FLAG_CARRY | FLAG_OVERFLOW), Op::Else, Op::ClearFlagsBits(FLAG_CARRY | FLAG_OVERFLOW), Op::BlockEnd, Op::SetLastResult(WasmLocal::Register(EAX)), Op::SetLastOpSize(OPSIZE_32), Op::SetFlagsChanged(FLAGS_ALL & !FLAG_CARRY & !FLAG_OVERFLOW)]
}

/// Multiplies the unsigned value on the stack by EAX into EDX:EAX; carry and overflow
/// are set exactly when EDX is not zero.
#[verifier::rlimit(40)]
pub(crate) fn gen_mul32(ctx: &mut JitContext)
    requires
        ready(old(ctx).builder, 16),
        old(ctx).builder.frame().depth >= base(old(ctx).builder.frame()) + 1,
    ensures
        emits(*old(ctx), *final(ctx), gen_mul32_code(old(ctx).builder.next_local), 1),
        restores_by(old(ctx).builder, final(ctx).builder, -1),
{
    ctx.builder.emit(Op::ExtendUnsignedI32ToI64);
    ctx.builder.emit(Op::GetReg32(EAX));
    ctx.builder.emit(Op::ExtendUnsignedI32ToI64);
    ctx.builder.emit(Op::MulI64);
    let result = ctx.builder.tee_new_local_i64();
    ctx.builder.emit(Op::ConstI64(32));
    ctx.builder.emit(Op::ShrUI64);
    ctx.builder.emit(Op::WrapI64ToI32);
    ctx.builder.emit(Op::SetReg32(EDX));
    ctx.builder.emit(Op::GetLocalI64(result.index));
    ctx.builder.free_local_i64(result);
    ctx.builder.emit(Op::WrapI64ToI32);
    ctx.builder.emit(Op::SetReg32(EAX));
    ctx.builder.emit(Op::GetReg32(EDX));
    ctx.builder.if_void();
    ctx.builder.emit(Op::SetFlagsBits(FLAG_CARRY | FLAG_OVERFLOW));
    ctx.builder.else_();
    ctx.builder.emit(Op::ClearFlagsBits(FLAG_CARRY | FLAG_OVERFLOW));
    ctx.builder.block_end();
    ctx.builder.emit(Op::SetLastResult(WasmLocal::Register(EAX)));
    ctx.builder.emit(Op::SetLastOpSize(OPSIZE_32));
    ctx.builder.emit(Op::SetFlagsChanged(FLAGS_ALL & !FLAG_CARRY & !FLAG_OVERFLOW));
    proof {
        assert(ctx.builder.code@ =~= old(ctx).builder.code@ + gen_mul32_code(old(ctx).builder.next_local));
        assert(ctx.builder.frame().live =~= old(ctx).builder.frame().live);
        assert(ctx.builder.frame().live64 =~= old(ctx).builder.frame().live64);
        assert(ctx.builder.frame().ctrl =~= old(ctx).builder.frame().ctrl);
    }
}

/// The 32-bit two-operand operations whose result is written to the destination.
#[derive(Clone, Copy, PartialEq, Eq, Debug)]
pub enum Alu32 {
    Add,
    Or,
    Adc,
    Sbb,
    And,
    Sub,
    Xor,
    ImulReg,
}

/// The code that [`gen_alu32`] appends.
pub open spec fn gen_alu32_code(op: Alu32, dest: WasmLocal, source: LocalOrImmedate) -> Seq<Op> {
    match op {
        Alu32::Add => gen_add32_code(dest, source),
        Alu32::Or => gen_or32_code(dest, source),
        Alu32::Adc => gen_adc32_code(dest, source),
        Alu32::Sbb => gen_sbb32_code(dest, source),
        Alu32::And => gen_and32_code(dest, source),
        Alu32::Sub => gen_sub32_code(dest, source),
        Alu32::Xor => gen_xor32_code(dest, source),
        Alu32::ImulReg => gen_imul_reg32_code(dest, source),
    }
}

/// Generates the 32-bit operation `op` on `dest` and `source`.
pub fn gen_alu32(
    builder: &mut WasmBuilder,
    op: Alu32,
    dest: &WasmLocal,
    source: &LocalOrImmedate,
)
    requires
        ready(*old(builder), 32),
        usable(old(builder).frame(), *dest),
        operand_usable(old(builder).frame(), *source),
    ensures
        builder_emits(*old(builder), *final(builder), gen_alu32_code(op, *dest, *source), 0),
        restores_by(*old(builder), *final(builder), 0),
{
    match op {
        Alu32::Add => gen_add32(builder, dest, source),
        Alu32::Or => gen_or32(builder, dest, source),
        Alu32::Adc => gen_adc32(builder, dest, source),
        Alu32::Sbb => gen_sbb32(builder, dest, source),
        Alu32::And => gen_and32(builder, dest, source),
        Alu32::Sub => gen_sub32(builder, dest, source),
        Alu32::Xor => gen_xor32(builder, dest, source),
        Alu32::ImulReg => gen_imul_reg32(builder, dest, source),
    }
}

/// The one-operand operations on a 16- or 32-bit destination.
#[derive(Clone, Copy, PartialEq, Eq, Debug)]
pub enum Unary {
    Not16,
    Not32,
    Neg16,
    Neg32,
    Inc16,
    Inc32,
    Dec16,
    Dec32,
}

/// The code that [`gen_unary`] appends.
pub open spec fn gen_unary_code(op: Unary, dest: WasmLocal) -> Seq<Op> {
    match op {
        Unary::Not16 => gen_not16_code(dest),
        Unary::Not32 => gen_not32_code(dest),
        Unary::Neg16 => gen_neg16_code(dest),
        Unary::Neg32 => gen_neg32_code(dest),
        Unary::Inc16 => gen_inc16_code(dest),
        Unary::Inc32 => gen_inc32_code(dest),
        Unary::Dec16 => gen_dec16_code(dest),
        Unary::Dec32 => gen_dec32_code(dest),
    }
}

/// Generates the one-operand operation `op` on `dest`.
pub fn gen_unary(builder: &mut WasmBuilder, op: Unary, dest: &WasmLocal)
    requires
        ready(*old(builder), 32),
        usable(old(builder).frame(), *dest),
    ensures
        builder_emits(*old(builder), *final(builder), gen_unary_code(op, *dest), 0),
        restores_by(*old(builder), *final(builder), 0),
{
    match op {
        Unary::Not16 => gen_not16(builder, dest),
        Unary::Not32 => gen_not32(builder, dest),
        Unary::Neg16 => gen_neg16(builder, dest),
        Unary::Neg32 => gen_neg32(builder, dest),
        Unary::Inc16 => gen_inc16(builder, dest),
        Unary::Inc32 => gen_inc32(builder, dest),
        Unary::Dec16 => gen_dec16(builder, dest),
        Unary::Dec32 => gen_dec32(builder, dest),
    }
}

} // verus!
