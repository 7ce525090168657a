//! What `inc` and `dec` compute: the destination steps by one at 16 or 32 bits, the
//! operands are recorded for the lazily computed flags, and the carry flag, which these
//! instructions keep, is computed once and stored in FLAGS.

use vstd::prelude::*;
use crate::op::{Op, WasmLocal, GlobalPointer};
use crate::consts::{OPSIZE_16, OPSIZE_32, FLAGS_ALL, FLAG_CARRY, FLAG_SUB, NOT_CARRY};
use crate::alu::{gen_inc_code, gen_dec_code};
use crate::semantics::{Machine, run, run_from, exec_access, wrapping_add, wrapping_sub, with_low16, lemma_run_concat, lemma_local_after_set};

verus! {

/// The operand sizes at which `inc` and `dec` run inline.
pub open spec fn word_size(size: i32) -> bool {
    size == OPSIZE_16 || size == OPSIZE_32
}

/// `v` cut to the operand size.
pub open spec fn cut(v: u32, size: i32) -> u32 {
    if size == OPSIZE_16 {
        v & 0xFFFF
    } else {
        v
    }
}

/// The value of the destination after stepping `a` by one: at 16 bits only the low half
/// changes.
pub open spec fn stepped(a: u32, size: i32, dec: bool) -> u32 {
    let r = if dec {
        wrapping_sub(a, 1)
    } else {
        wrapping_add(a, 1)
    };
    if size == OPSIZE_16 {
        with_low16(a, r)
    } else {
        r
    }
}

/// The machine after `inc` (or `dec`, when `dec` holds) of the local `d`: FLAGS holds the
/// carry flag as it was computed before, the local is stepped, the operand and the
/// result are recorded at the operand size, and every flag but carry is computed lazily.
pub open spec fn after_inc_dec(m: Machine, d: WasmLocal, size: i32, dec: bool) -> Machine {
    let a = m.local(d)->0;
    let r = stepped(a, size, dec);
    Machine {
        flags: (m.flags & !1u32) | (if m.carry() {
            1u32
        } else {
            0u32
        }),
        last_op1: cut(a, size),
        last_result: cut(r, size),
        last_op_size: size as u32,
        flags_changed: (if dec {
            FLAGS_ALL & !FLAG_CARRY | FLAG_SUB
        } else {
            FLAGS_ALL & !FLAG_CARRY
        }) as u32,
        ..m.set_local(d, r)
    }
}

spec fn save_carry_code() -> Seq<Op> {
    seq![Op::ConstGlobal(GlobalPointer::Flags), Op::LoadAlignedI32(GlobalPointer::Flags), Op::ConstI32(NOT_CARRY), Op::AndI32, Op::GetCf, Op::OrI32, Op::StoreAlignedI32(0)]
}

spec fn mask_code(size: i32) -> Seq<Op> {
    if size == OPSIZE_16 {
        seq![Op::ConstI32(0xFFFF), Op::AndI32]
    } else {
        Seq::<Op>::empty()
    }
}

spec fn record_op1_code(d: WasmLocal, size: i32) -> Seq<Op> {
    seq![Op::ConstGlobal(GlobalPointer::LastOp1), Op::GetLocal(d)] + mask_code(size) + seq![Op::StoreAlignedI32(0)]
}

spec fn step_code(d: WasmLocal, size: i32, dec: bool) -> Seq<Op> {
    seq![Op::GetLocal(d), Op::ConstI32(1), if dec {
        Op::SubI32
    } else {
        Op::AddI32
    }, if size == OPSIZE_16 {
        Op::SetReg16Local(d)
    } else {
        Op::SetLocal(d)
    }]
}

spec fn record_result_code(d: WasmLocal, size: i32, dec: bool) -> Seq<Op> {
    seq![Op::ConstGlobal(GlobalPointer::LastResult), Op::GetLocal(d)] + mask_code(size) + seq![
        Op::StoreAlignedI32(0),
        Op::SetLastOpSize(size),
        Op::SetFlagsChanged(if dec {
            FLAGS_ALL & !FLAG_CARRY | FLAG_SUB
        } else {
            FLAGS_ALL & !FLAG_CARRY
        }),
    ]
}

#[verifier::rlimit(30)]
proof fn lemma_save_carry(m: Machine)
    requires
        m.wf(),
    ensures
        run(m, save_carry_code()) == Some(
            Machine {
                flags: (m.flags & !1u32) | (if m.carry() {
                    1u32
                } else {
                    0u32
                }),
                ..m
            },
        ),
{
    reveal(exec_access);
    assert((NOT_CARRY as u32) == !1u32) by (bit_vector);
    reveal_with_fuel(run_from, 8);
    assert(m.stack.push(crate::semantics::Value::Address(GlobalPointer::Flags)).push(crate::semantics::Value::Word(m.flags)).drop_last().drop_last() =~= m.stack);
}

#[verifier::rlimit(30)]
proof fn lemma_record_op1(m: Machine, d: WasmLocal, size: i32)
    requires
        m.wf(),
        m.local(d) is Some,
        word_size(size),
    ensures
        run(m, record_op1_code(d, size)) == Some(Machine { last_op1: cut(m.local(d)->0, size), ..m }),
{
    assert((0xFFFFi32 as u32) == 0xFFFFu32) by (bit_vector);
    if size == OPSIZE_16 {
        assert(record_op1_code(d, size).len() == 5);
    } else {
        assert(record_op1_code(d, size).len() == 3);
    }
    reveal_with_fuel(run_from, 6);
    assert(m.stack.push(crate::semantics::Value::Address(GlobalPointer::LastOp1)).drop_last() =~= m.stack);
}

#[verifier::rlimit(30)]
proof fn lemma_step(m: Machine, d: WasmLocal, size: i32, dec: bool)
    requires
        m.wf(),
        m.local(d) is Some,
        word_size(size),
    ensures
        run(m, step_code(d, size, dec)) == Some(m.set_local(d, stepped(m.local(d)->0, size, dec))),
{
    reveal_with_fuel(run_from, 5);
    assert(m.stack.push(crate::semantics::Value::Word(1)).drop_last() =~= m.stack);
}

#[verifier::rlimit(30)]
proof fn lemma_record_result(m: Machine, d: WasmLocal, size: i32, dec: bool)
    requires
        m.wf(),
        m.local(d) is Some,
        word_size(size),
    ensures
        run(m, record_result_code(d, size, dec)) == Some(
            Machine {
                last_result: cut(m.local(d)->0, size),
                last_op_size: size as u32,
                flags_changed: (if dec {
                    FLAGS_ALL & !FLAG_CARRY | FLAG_SUB
                } else {
                    FLAGS_ALL & !FLAG_CARRY
                }) as u32,
                ..m
            },
        ),
{
    assert((0xFFFFi32 as u32) == 0xFFFFu32) by (bit_vector);
    if size == OPSIZE_16 {
        assert(record_result_code(d, size, dec).len() == 7);
    } else {
        assert(record_result_code(d, size, dec).len() == 5);
    }
    reveal_with_fuel(run_from, 8);
    assert(m.stack.push(crate::semantics::Value::Address(GlobalPointer::LastResult)).drop_last() =~= m.stack);
}

proof fn lemma_inc_dec(m: Machine, d: WasmLocal, size: i32, dec: bool)
    requires
        m.wf(),
        m.local(d) is Some,
        word_size(size),
    ensures
        run(m, save_carry_code() + record_op1_code(d, size) + step_code(d, size, dec) + record_result_code(d, size, dec))
            == Some(after_inc_dec(m, d, size, dec)),
{
    let a = m.local(d)->0;
    let r = stepped(a, size, dec);
    let p1 = save_carry_code();
    let p2 = record_op1_code(d, size);
    let p3 = step_code(d, size, dec);
    let p4 = record_result_code(d, size, dec);
    lemma_run_concat(m, p1 + p2 + p3, p4);
    lemma_run_concat(m, p1 + p2, p3);
    lemma_run_concat(m, p1, p2);
    lemma_save_carry(m);
    let m1 = Machine { flags: (m.flags & !1u32) | (if m.carry() { 1u32 } else { 0u32 }), ..m };
    lemma_record_op1(m1, d, size);
    let m2 = Machine { last_op1: cut(a, size), ..m1 };
    lemma_step(m2, d, size, dec);
    let m3 = m2.set_local(d, r);
    lemma_local_after_set(m2, d, r);
    lemma_record_result(m3, d, size, dec);
}

/// `inc` of a local at 16 or 32 bits: see [`after_inc_dec`].
pub proof fn law_inc(m: Machine, d: WasmLocal, size: i32)
    requires
        m.wf(),
        m.local(d) is Some,
        word_size(size),
    ensures
        run(m, gen_inc_code(d, size)) == Some(after_inc_dec(m, d, size, false)),
{
    lemma_inc_dec(m, d, size, false);
    assert(gen_inc_code(d, size) =~= save_carry_code() + record_op1_code(d, size) + step_code(d, size, false) + record_result_code(d, size, false));
}

/// `dec` of a local at 16 or 32 bits: see [`after_inc_dec`].
pub proof fn law_dec(m: Machine, d: WasmLocal, size: i32)
    requires
        m.wf(),
        m.local(d) is Some,
        word_size(size),
    ensures
        run(m, gen_dec_code(d, size)) == Some(after_inc_dec(m, d, size, true)),
{
    lemma_inc_dec(m, d, size, true);
    assert(gen_dec_code(d, size) =~= save_carry_code() + record_op1_code(d, size) + step_code(d, size, true) + record_result_code(d, size, true));
}

/// `inc` and `dec` keep the carry flag: after them FLAGS holds, in bit 0, the carry flag
/// as it was computed before, and the carry flag is no longer computed lazily.
pub proof fn law_inc_dec_keep_carry(m: Machine, d: WasmLocal, size: i32, dec: bool)
    requires
        m.wf(),
        m.local(d) is Some,
        word_size(size),
    ensures
        ((after_inc_dec(m, d, size, dec).flags & 1) == 1) == m.carry(),
        after_inc_dec(m, d, size, dec).flags_changed & 1 == 0,
{
    let f = m.flags;
    assert(((f & !1u32) | 1u32) & 1 == 1 && ((f & !1u32) | 0u32) & 1 == 0
        && ((FLAGS_ALL & !FLAG_CARRY | FLAG_SUB) as u32) & 1 == 0
        && ((FLAGS_ALL & !FLAG_CARRY) as u32) & 1 == 0) by (bit_vector);
}

/// `dec` undoes `inc`: the local gets back its value, at 16 and at 32 bits.
pub proof fn law_dec_undoes_inc(m: Machine, d: WasmLocal, size: i32)
    requires
        m.wf(),
        m.local(d) is Some,
        word_size(size),
    ensures
        run(m, gen_inc_code(d, size) + gen_dec_code(d, size)) is Some,
        run(m, gen_inc_code(d, size) + gen_dec_code(d, size))->0.local(d) == m.local(d),
{
    let a = m.local(d)->0;
    lemma_run_concat(m, gen_inc_code(d, size), gen_dec_code(d, size));
    law_inc(m, d, size);
    let x = after_inc_dec(m, d, size, false);
    let r = stepped(a, size, false);
    lemma_local_after_set(m, d, r);
    assert(x.local(d) == Some(r));
    law_dec(x, d, size);
    let r2 = stepped(r, size, true);
    lemma_local_after_set(x, d, r2);
    if size == OPSIZE_16 {
        assert(with_low16(with_low16(a, wrapping_add(a, 1)), wrapping_sub(with_low16(a, wrapping_add(a, 1)), 1)) == a) by (bit_vector);
    } else {
        assert(wrapping_sub(wrapping_add(a, 1), 1) == a);
    }
}

} // verus!
