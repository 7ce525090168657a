//! What the code with 64-bit values and `if` blocks computes: the unsigned 32-bit
//! multiplication, the 32-bit compare-and-exchange, and the alignment check of the
//! aligned 128-bit moves; and that subtraction undoes addition.

use vstd::prelude::*;
use crate::op::{Op, WasmLocal, LocalOrImmedate, GlobalPointer};
use crate::consts::{EAX, EDX, OPSIZE_32, FLAGS_ALL, FLAG_CARRY, FLAG_OVERFLOW};
use crate::alu::{Alu32, gen_alu32_code, gen_mul32_code, gen_compare_exchange32_code, gen_compare_code};
use crate::sse::{instr_0F29_mem_jit_code, instr_660F6F_mem_jit_code};
use crate::semantics::{
    Machine, Value, run, run_from, run_blocks, run_blocks_from, exec_access, exec_wide, key_index, key_index64,
    lemma_run_concat, lemma_run_blocks_concat, lemma_run_blocks_agrees, lemma_key_index_found,
    lemma_key_index_same_keys, wrapping_add, wrapping_sub,
};
use crate::laws::{after_compare32_values, after_alu32_at, alu32_value, operand_value, law_compare32, law_alu32};

verus! {

/// The 64-bit product of EAX and `src`.
pub open spec fn product(m: Machine, src: u32) -> u64 {
    ((src * m.regs[EAX as int]) % 0x1_0000_0000_0000_0000) as u64
}

/// The high half of the product.
pub open spec fn product_high(m: Machine, src: u32) -> u32 {
    ((product(m, src) >> 32u64) % 0x1_0000_0000) as u32
}

/// The low half of the product.
pub open spec fn product_low(m: Machine, src: u32) -> u32 {
    (product(m, src) % 0x1_0000_0000) as u32
}

/// The machine after `mul` of EAX by `src` (taken from the stack): EDX:EAX holds the
/// product, carry and overflow are set exactly when EDX is not zero and no longer
/// computed lazily, the other flags keep their values, and EAX is recorded as the result.
pub open spec fn after_mul32(m: Machine, src: u32) -> Machine {
    Machine {
        regs: m.regs.update(EDX as int, product_high(m, src)).update(EAX as int, product_low(m, src)),
        flags: if product_high(m, src) != 0 {
            m.flags | ((FLAG_CARRY | FLAG_OVERFLOW) as u32)
        } else {
            m.flags & !((FLAG_CARRY | FLAG_OVERFLOW) as u32)
        },
        last_result: product_low(m, src),
        last_op_size: OPSIZE_32 as u32,
        flags_changed: (FLAGS_ALL & !FLAG_CARRY & !FLAG_OVERFLOW) as u32,
        ..m.pop()
    }
}

spec fn mul_multiply_code(n: u32) -> Seq<Op> {
    seq![Op::ExtendUnsignedI32ToI64, Op::GetReg32(EAX), Op::ExtendUnsignedI32ToI64, Op::MulI64, Op::TeeNewLocalI64(n)]
}

spec fn mul_high_code() -> Seq<Op> {
    seq![Op::ConstI64(32), Op::ShrUI64, Op::WrapI64ToI32, Op::SetReg32(EDX)]
}

spec fn mul_low_code(n: u32) -> Seq<Op> {
    seq![Op::GetLocalI64(n), Op::FreeLocalI64(n), Op::WrapI64ToI32, Op::SetReg32(EAX)]
}

spec fn mul_flags_code() -> Seq<Op> {
    seq![Op::GetReg32(EDX), Op::IfVoid, Op::SetFlagsBits(FLAG_CARRY | FLAG_OVERFLOW), Op::Else, Op::ClearFlagsBits(FLAG_CARRY | FLAG_OVERFLOW), Op::BlockEnd]
}

spec fn mul_record_code() -> Seq<Op> {
    seq![Op::SetLastResult(WasmLocal::Register(EAX)), Op::SetLastOpSize(OPSIZE_32), Op::SetFlagsChanged(FLAGS_ALL & !FLAG_CARRY & !FLAG_OVERFLOW)]
}

#[verifier::rlimit(40)]
proof fn lemma_mul_multiply(m: Machine, src: u32, n: u32)
    requires
        m.wf(),
        m.top() == Some(src),
        key_index64(m.temps64, n, m.temps64.len()) < 0,
    ensures
        run(m, mul_multiply_code(n)) == Some(
            Machine { temps64: m.temps64.push((n, product(m, src))), ..m.pop().push_long(product(m, src)) },
        ),
{
    reveal(exec_wide);
    reveal_with_fuel(run_from, 6);
}

#[verifier::rlimit(40)]
proof fn lemma_mul_high(x: Machine, p: u64)
    requires
        x.wf(),
        x.top_long() == Some(p),
    ensures
        run(x, mul_high_code()) == Some(
            Machine { regs: x.regs.update(EDX as int, ((p >> 32u64) % 0x1_0000_0000) as u32), ..x.pop() },
        ),
{
    reveal(exec_wide);
    assert((32i64 as u64) & 63 == 32u64) by (bit_vector);
    reveal_with_fuel(run_from, 5);
    assert(x.stack.push(Value::Long(32u64)).drop_last().drop_last().push(Value::Word(((p >> 32u64) % 0x1_0000_0000) as u32)).drop_last() =~= x.stack.drop_last());
}

#[verifier::rlimit(40)]
proof fn lemma_mul_low(x: Machine, p: u64, n: u32)
    requires
        x.wf(),
        x.temps64.len() > 0,
        x.temps64.last() == (n, p),
    ensures
        run(x, mul_low_code(n)) == Some(
            Machine {
                regs: x.regs.update(EAX as int, (p % 0x1_0000_0000) as u32),
                temps64: x.temps64.drop_last(),
                ..x
            },
        ),
{
    reveal(exec_wide);
    reveal_with_fuel(run_from, 5);
    assert(x.temps64.remove(x.temps64.len() - 1) =~= x.temps64.drop_last());
    assert(x.push_long(p).pop().push((p % 0x1_0000_0000) as u32).pop() =~= x);
}

#[verifier::rlimit(40)]
proof fn lemma_mul_flags(x: Machine)
    requires
        x.wf(),
    ensures
        run_blocks_from(x, mul_flags_code(), 0, Seq::empty()) == Some(
            (
                Machine {
                    flags: if x.regs[EDX as int] != 0 {
                        x.flags | ((FLAG_CARRY | FLAG_OVERFLOW) as u32)
                    } else {
                        x.flags & !((FLAG_CARRY | FLAG_OVERFLOW) as u32)
                    },
                    ..x
                },
                Seq::<(bool, bool)>::empty(),
            ),
        ),
{
    reveal_with_fuel(run_blocks_from, 7);
    assert(x.push(x.regs[EDX as int]).pop() =~= x);
    let e = x.regs[EDX as int];
    let b1 = Seq::<(bool, bool)>::empty().push((true, e != 0));
    assert(b1.drop_last().push((b1.last().0, b1.last().0 && !b1.last().1)).drop_last() =~= Seq::<(bool, bool)>::empty());
}

#[verifier::rlimit(40)]
proof fn lemma_mul_record(x: Machine)
    requires
        x.wf(),
    ensures
        run(x, mul_record_code()) == Some(
            Machine {
                last_result: x.regs[EAX as int],
                last_op_size: OPSIZE_32 as u32,
                flags_changed: (FLAGS_ALL & !FLAG_CARRY & !FLAG_OVERFLOW) as u32,
                ..x
            },
        ),
{
    reveal_with_fuel(run_from, 4);
}

/// `mul` with 32-bit operands (the code of group `F7 /4`): EDX:EAX becomes the unsigned
/// product of EAX and the value on the stack, which is consumed; carry and overflow are
/// set exactly when EDX is not zero.
pub proof fn law_mul32(m: Machine, src: u32, n: u32)
    requires
        m.wf(),
        m.top() == Some(src),
        key_index64(m.temps64, n, m.temps64.len()) < 0,
    ensures
        run_blocks(m, gen_mul32_code(n)) == Some(after_mul32(m, src)),
{
    let a1 = mul_multiply_code(n);
    let a2 = mul_high_code();
    let a3 = mul_low_code(n);
    let b = mul_flags_code();
    let c = mul_record_code();
    let e = Seq::<(bool, bool)>::empty();
    assert(gen_mul32_code(n) =~= a1 + a2 + a3 + b + c);
    let p = product(m, src);
    // The straight part.
    lemma_run_concat(m, a1 + a2, a3);
    lemma_run_concat(m, a1, a2);
    lemma_mul_multiply(m, src, n);
    let x1 = Machine { temps64: m.temps64.push((n, p)), ..m.pop().push_long(p) };
    lemma_mul_high(x1, p);
    let x2 = Machine { regs: x1.regs.update(EDX as int, product_high(m, src)), ..x1.pop() };
    assert(x1.pop().stack =~= m.pop().stack);
    lemma_mul_low(x2, p, n);
    let x3 = Machine {
        regs: m.regs.update(EDX as int, product_high(m, src)).update(EAX as int, product_low(m, src)),
        ..m.pop()
    };
    assert(x2.temps64.drop_last() =~= m.temps64);
    assert(run(m, a1 + a2 + a3) == Some(x3));
    lemma_run_blocks_agrees(m, a1 + a2 + a3);
    // The flags.
    lemma_run_blocks_concat(m, a1 + a2 + a3, b, e);
    lemma_mul_flags(x3);
    let x4 = Machine {
        flags: if product_high(m, src) != 0 {
            m.flags | ((FLAG_CARRY | FLAG_OVERFLOW) as u32)
        } else {
            m.flags & !((FLAG_CARRY | FLAG_OVERFLOW) as u32)
        },
        ..x3
    };
    // The recorded result.
    lemma_run_blocks_concat(m, a1 + a2 + a3 + b, c, e);
    lemma_mul_record(x4);
    lemma_run_blocks_agrees(x4, c);
}

/// The product of `mul`: EDX * 2^32 + EAX is EAX times the operand, before.
pub proof fn law_mul32_product(m: Machine, src: u32)
    requires
        m.wf(),
    ensures
        after_mul32(m, src).regs[EDX as int] * 0x1_0000_0000 + after_mul32(m, src).regs[EAX as int]
            == m.regs[EAX as int] * src,
{
    let a = m.regs[EAX as int];
    assert(src * a < 0x1_0000_0000_0000_0000) by (nonlinear_arith)
        requires
            src < 0x1_0000_0000,
            a < 0x1_0000_0000,
    ;
    assert(0 <= src * a) by (nonlinear_arith);
    let p = product(m, src);
    assert(p == src * a);
    assert(((p >> 32u64) % 0x1_0000_0000) * 0x1_0000_0000 + p % 0x1_0000_0000 == p) by (bit_vector);
    assert(src * a == a * src) by (nonlinear_arith);
}

/// The machine after `cmpxchg` of the value `d` (taken from the stack) with EAX, `r`
/// being the source register: the comparison of EAX with `d` is recorded; when the
/// runtime then computes the zero flag as set, register `r` is left on the stack and EAX
/// is kept, else EAX becomes `d` and `d` is left.
pub open spec fn after_compare_exchange32(m: Machine, r: u32, d: u32) -> Machine {
    let c = after_compare32_values(m.pop(), false, m.regs[EAX as int], d);
    if c.zero() {
        c.push(m.regs[r as int])
    } else {
        Machine { regs: c.regs.update(EAX as int, d), ..c }.push(d)
    }
}

spec fn exchange_choice_code(r: u32, n: u32) -> Seq<Op> {
    seq![Op::GetZf, Op::IfI32, Op::GetReg32(r), Op::Else, Op::GetLocal(WasmLocal::Temp(n)), Op::SetReg32(EAX), Op::GetLocal(WasmLocal::Temp(n)), Op::BlockEnd]
}

#[verifier::rlimit(60)]
proof fn lemma_exchange_equal(x: Machine, r: u32, n: u32)
    requires
        x.wf(),
        r < 8,
        x.zero(),
    ensures
        run_blocks_from(x, exchange_choice_code(r, n), 0, Seq::empty()) == Some(
            (x.push(x.regs[r as int]), Seq::<(bool, bool)>::empty()),
        ),
{
    reveal(exec_access);
    reveal_with_fuel(run_blocks_from, 9);
    assert(x.push(1).pop() =~= x);
    let b1 = Seq::<(bool, bool)>::empty().push((true, true));
    assert(b1.drop_last().push((b1.last().0, b1.last().0 && !b1.last().1)).drop_last() =~= Seq::<(bool, bool)>::empty());
}

#[verifier::rlimit(60)]
proof fn lemma_exchange_different(x: Machine, r: u32, n: u32, d: u32)
    requires
        x.wf(),
        r < 8,
        !x.zero(),
        x.local(WasmLocal::Temp(n)) == Some(d),
    ensures
        run_blocks_from(x, exchange_choice_code(r, n), 0, Seq::empty()) == Some(
            (Machine { regs: x.regs.update(EAX as int, d), ..x }.push(d), Seq::<(bool, bool)>::empty()),
        ),
{
    reveal(exec_access);
    reveal_with_fuel(run_blocks_from, 9);
    assert(x.push(0).pop() =~= x);
    assert(x.push(d).pop() =~= x);
    let b1 = Seq::<(bool, bool)>::empty().push((true, false));
    assert(b1.drop_last().push((b1.last().0, b1.last().0 && !b1.last().1)).drop_last() =~= Seq::<(bool, bool)>::empty());
}

/// `cmpxchg` with 32-bit operands, on the value `d` taken from the stack: see
/// [`after_compare_exchange32`].
#[verifier::rlimit(40)]
pub proof fn law_compare_exchange32(m: Machine, r: u32, n: u32, d: u32)
    requires
        m.wf(),
        r < 8,
        m.top() == Some(d),
        key_index(m.temps, n, m.temps.len()) < 0,
    ensures
        run_blocks(m, gen_compare_exchange32_code(r, n)) == Some(after_compare_exchange32(m, r, d)),
{
    let e = Seq::<(bool, bool)>::empty();
    let a = seq![Op::SetNewLocal(n)];
    let b = gen_compare_code(false, WasmLocal::Register(EAX), LocalOrImmedate::WasmLocal(WasmLocal::Temp(n)), OPSIZE_32);
    let c = exchange_choice_code(r, n);
    let f = seq![Op::FreeLocal(n)];
    assert(gen_compare_exchange32_code(r, n) =~= a + b + c + f);
    let m1 = Machine { temps: m.temps.push((n, d)), ..m.pop() };
    lemma_run_concat(m, a, b);
    reveal_with_fuel(run_from, 2);
    assert(run(m, a) == Some(m1));
    assert(m1.local(WasmLocal::Temp(n)) == Some(d));
    law_compare32(m1, false, WasmLocal::Register(EAX), LocalOrImmedate::WasmLocal(WasmLocal::Temp(n)));
    let x = after_compare32_values(m1, false, m.regs[EAX as int], d);
    lemma_run_blocks_agrees(m, a + b);
    lemma_run_blocks_concat(m, a + b, c, e);
    lemma_run_blocks_concat(m, a + b + c, f, e);
    assert(x.local(WasmLocal::Temp(n)) == Some(d));
    assert(m.temps.push((n, d)).remove(m.temps.len() as int) =~= m.temps);
    if x.zero() {
        lemma_exchange_equal(x, r, n);
        let y = x.push(x.regs[r as int]);
        assert(run(y, f) == Some(Machine { temps: m.temps, ..y }));
        lemma_run_blocks_agrees(y, f);
    } else {
        lemma_exchange_different(x, r, n, d);
        let y = Machine { regs: x.regs.update(EAX as int, d), ..x }.push(d);
        assert(run(y, f) == Some(Machine { temps: m.temps, ..y }));
        lemma_run_blocks_agrees(y, f);
    }
}

/// The check at the start of `movaps` to memory and `movdqa` from memory: the address is
/// kept in temporary `n`; an address that is not a multiple of 16 raises the
/// general-protection exception, which stops the code.
pub open spec fn alignment_check_code(modrm_byte: u8, n: u32) -> Seq<Op> {
    seq![Op::ModrmResolve(modrm_byte), Op::SetNewLocal(n), Op::GetLocal(WasmLocal::Temp(n)), Op::ConstI32(15), Op::AndI32, Op::IfVoid, Op::TriggerGp(0), Op::BlockEnd]
}

/// The alignment check passes an operand address that is a multiple of 16, and raises the
/// general-protection exception for any other, changing nothing but the temporary.
#[verifier::rlimit(60)]
pub proof fn law_alignment_check(m: Machine, modrm_byte: u8, n: u32)
    requires
        m.wf(),
        key_index(m.temps, n, m.temps.len()) < 0,
    ensures
        run_blocks_from(m, alignment_check_code(modrm_byte, n), 0, Seq::empty()) == Some(
            if m.env.operand_address & 15 == 0 {
                (Machine { temps: m.temps.push((n, m.env.operand_address)), ..m }, Seq::<(bool, bool)>::empty())
            } else {
                (
                    Machine { faulted: true, temps: m.temps.push((n, m.env.operand_address)), ..m },
                    Seq::<(bool, bool)>::empty().push((true, true)),
                )
            },
        ),
{
    reveal(exec_wide);
    reveal_with_fuel(run_blocks_from, 9);
    let a = m.env.operand_address;
    assert(m.stack.push(Value::Word(a)).drop_last() =~= m.stack);
    assert(m.stack.push(Value::Word(a)).push(Value::Word(15)).drop_last().drop_last().push(Value::Word(a & 15)).drop_last() =~= m.stack);
    assert(Seq::<(bool, bool)>::empty().push((true, false)).drop_last() =~= Seq::<(bool, bool)>::empty());
}

/// `movaps` to memory (opcodes `0F 29` and `66 0F 29`) at an address that is not a
/// multiple of 16 raises the general-protection exception: memory and the registers are
/// unchanged.
pub proof fn law_movaps_store_unaligned(m: Machine, modrm_byte: u8, r: u32, n: u32)
    requires
        m.wf(),
        key_index(m.temps, n, m.temps.len()) < 0,
        m.env.operand_address & 15 != 0,
    ensures
        run_blocks(m, instr_0F29_mem_jit_code(modrm_byte, r, n)) == Some(
            Machine { faulted: true, temps: m.temps.push((n, m.env.operand_address)), ..m },
        ),
{
    let code = instr_0F29_mem_jit_code(modrm_byte, r, n);
    let rest = code.subrange(8, code.len() as int);
    assert(code =~= alignment_check_code(modrm_byte, n) + rest);
    lemma_run_blocks_concat(m, alignment_check_code(modrm_byte, n), rest, Seq::empty());
    law_alignment_check(m, modrm_byte, n);
}

/// `movdqa` from memory (opcode `66 0F 6F`) at an address that is not a multiple of 16
/// raises the general-protection exception: nothing is loaded.
pub proof fn law_movdqa_load_unaligned(m: Machine, modrm_byte: u8, r: u32, n: u32)
    requires
        m.wf(),
        key_index(m.temps, n, m.temps.len()) < 0,
        m.env.operand_address & 15 != 0,
    ensures
        run_blocks(m, instr_660F6F_mem_jit_code(modrm_byte, r, n)) == Some(
            Machine { faulted: true, temps: m.temps.push((n, m.env.operand_address)), ..m },
        ),
{
    let code = instr_660F6F_mem_jit_code(modrm_byte, r, n);
    let rest = seq![Op::SafeRead128(WasmLocal::Temp(n), GlobalPointer::XmmLow(r)), Op::FreeLocal(n)];
    assert(code =~= alignment_check_code(modrm_byte, n) + rest);
    lemma_run_blocks_concat(m, alignment_check_code(modrm_byte, n), rest, Seq::empty());
    law_alignment_check(m, modrm_byte, n);
}

/// Setting local `d` leaves every other local.
proof fn lemma_local_other(m: Machine, d: WasmLocal, l: WasmLocal, v: u32)
    requires
        m.wf(),
        m.local(d) is Some,
        l != d,
    ensures
        m.set_local(d, v).local(l) == m.local(l),
{
    if let WasmLocal::Temp(t) = d {
        let i = key_index(m.temps, t, m.temps.len());
        lemma_key_index_found(m.temps, t, m.temps.len());
        let temps = m.temps.update(i, (t, v));
        assert forall|k: int| 0 <= k < m.temps.len() implies #[trigger] temps[k].0 == m.temps[k].0 by {}
        if let WasmLocal::Temp(u) = l {
            lemma_key_index_same_keys(temps, m.temps, u, m.temps.len());
            lemma_key_index_found(m.temps, u, m.temps.len());
        }
    }
}

/// `sub` undoes `add` at 32 bits: adding an operand to a local and subtracting it again
/// gives the local back, when the operand is not the local itself.
pub proof fn law_sub_undoes_add(m: Machine, d: WasmLocal, o: LocalOrImmedate)
    requires
        m.wf(),
        m.local(d) is Some,
        operand_value(m, o) is Some,
        o != LocalOrImmedate::WasmLocal(d),
    ensures
        run(m, gen_alu32_code(Alu32::Add, d, o) + gen_alu32_code(Alu32::Sub, d, o)) is Some,
        run(m, gen_alu32_code(Alu32::Add, d, o) + gen_alu32_code(Alu32::Sub, d, o))->0.local(d) == m.local(d),
{
    let a = m.local(d)->0;
    let b = operand_value(m, o)->0;
    lemma_run_concat(m, gen_alu32_code(Alu32::Add, d, o), gen_alu32_code(Alu32::Sub, d, o));
    law_alu32(m, Alu32::Add, d, o);
    let x = after_alu32_at(m, Alu32::Add, d, b);
    let r = alu32_value(Alu32::Add, a, b);
    crate::semantics::lemma_local_after_set(m, d, r);
    if let LocalOrImmedate::WasmLocal(l) = o {
        lemma_local_other(m, d, l, r);
    }
    assert(operand_value(x, o) == Some(b));
    law_alu32(x, Alu32::Sub, d, o);
    let r2 = alu32_value(Alu32::Sub, r, b);
    crate::semantics::lemma_local_after_set(x, d, r2);
    assert(wrapping_sub(wrapping_add(a, b), b) == a);
}

} // verus!
