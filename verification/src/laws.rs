//! What the generated code computes, for the instructions whose code stays within the
//! machine of [`crate::semantics`]: the arithmetic and logic operations, compare and
//! test, exchanges, moves, sign and zero extensions, bit tests and the flag
//! instructions.

use vstd::prelude::*;
use crate::op::{WasmLocal, LocalOrImmedate, GlobalPointer};
use crate::operand::operand_op;
use crate::consts::{
    OPSIZE_32, FLAGS_ALL, FLAG_SUB, FLAG_CARRY, FLAG_OVERFLOW, FLAG_ADJUST,
    FLAG_DIRECTION, FLAGS_MASK, FLAGS_DEFAULT, NOT_CARRY, NOT_DIRECTION, NOT_LOW_BYTE, EAX, EDX,
};
use crate::alu::{Alu32, gen_alu32_code, gen_compare_code};
use crate::templates::{
    rmw32_reg_reg_code, write_reg32_reg_code, group_arith_eax_imm32_code, rmw32_alu_imm_reg_code,
    gen_xchg_reg32_code, gen_mov_reg32_imm_code,
};
use crate::ops_move::{instr32_98_jit_code, instr32_99_jit_code, instr_9E_jit_code};
use crate::ops_control::{instr_FC_jit_code, instr_FD_jit_code};
use crate::ops_group::{
    instr32_87_reg_jit_code, instr32_89_reg_jit_code, instr32_8B_reg_jit_code, instr_86_reg_jit_code,
    instr16_87_reg_jit_code,
};
use crate::ops_0f::{
    instr32_0FA3_reg_jit_code, instr32_0FBA_4_reg_jit_code, instr32_0FB6_reg_jit_code,
    instr32_0FB7_reg_jit_code, instr32_0FBE_reg_jit_code, instr32_0FBF_reg_jit_code,
};
use crate::semantics::{
    Machine, exec, run, run_from, read32, write32, lemma_local_after_set, key_index, wrapping_add, wrapping_sub, reg8, set_reg8, with_low16, sign_extend8,
    sign_extend16,
};

verus! {

/// The value of a second operand on the machine: a local, a constant, or the immediate
/// read last.
pub open spec fn operand_value(m: Machine, o: LocalOrImmedate) -> Option<u32> {
    match o {
        LocalOrImmedate::WasmLocal(l) => m.local(l),
        LocalOrImmedate::Immediate(i) => Some(i as u32),
        LocalOrImmedate::ReadImmediate => Some(m.pending),
    }
}

/// The 32-bit operations whose code is plain WebAssembly; the others call runtime helpers.
pub open spec fn inline_alu32(op: Alu32) -> bool {
    op is Add || op is Sub || op is And || op is Or || op is Xor
}

/// The result of an operation whose code is plain WebAssembly.
pub open spec fn alu32_value(op: Alu32, a: u32, b: u32) -> u32 {
    match op {
        Alu32::Add => wrapping_add(a, b),
        Alu32::Sub => wrapping_sub(a, b),
        Alu32::And => a & b,
        Alu32::Or => a | b,
        _ => a ^ b,
    }
}

/// The cells after the operation `op` with first operand `a` and result `r`: an addition
/// or subtraction records its first operand, its result, its size and which flags are
/// computed lazily; a logic operation records its result and size, computes carry,
/// overflow and adjust at once as zero, and the others lazily.
pub open spec fn alu32_record(m: Machine, op: Alu32, a: u32, r: u32) -> Machine {
    if op is Add || op is Sub {
        Machine {
            last_op1: a,
            last_result: r,
            last_op_size: OPSIZE_32 as u32,
            flags_changed: (if op is Add {
                FLAGS_ALL
            } else {
                FLAGS_ALL | FLAG_SUB
            }) as u32,
            ..m
        }
    } else {
        Machine {
            last_result: r,
            last_op_size: OPSIZE_32 as u32,
            flags_changed: (FLAGS_ALL & !FLAG_CARRY & !FLAG_OVERFLOW & !FLAG_ADJUST) as u32,
            flags: m.flags & !((FLAG_CARRY | FLAG_OVERFLOW | FLAG_ADJUST) as u32),
            ..m
        }
    }
}

/// The machine after the operation `op` on the local `d` and the value `b`: the local
/// holds the result, and the cells record it.
pub open spec fn after_alu32_at(m: Machine, op: Alu32, d: WasmLocal, b: u32) -> Machine {
    let a = m.local(d)->0;
    alu32_record(m.set_local(d, alu32_value(op, a, b)), op, a, alu32_value(op, a, b))
}

/// The machine after the operation `op` on register `d` and the value `b`.
pub open spec fn after_alu32(m: Machine, op: Alu32, d: u32, b: u32) -> Machine {
    after_alu32_at(m, op, WasmLocal::Register(d), b)
}

/// The machine after the operation `op` on the doubleword at the operand address and the
/// value `b`: the doubleword holds the result, and the cells record it.
pub open spec fn after_alu32_mem(m: Machine, op: Alu32, b: u32) -> Machine {
    let a = read32(m.memory, m.env.operand_address)->0;
    let r = alu32_value(op, a, b);
    alu32_record(Machine { memory: write32(m.memory, m.env.operand_address, r), ..m }, op, a, r)
}

proof fn lemma_operand_op(m: Machine, o: LocalOrImmedate)
    requires
        operand_value(m, o) is Some,
    ensures
        exec(m, operand_op(o)) == Some(m.push(operand_value(m, o)->0)),
{
    if o is ReadImmediate {
        let p = m.pending;
        assert((((p as i32) & -1i32) >> 0u32) as u32 == p) by (bit_vector);
    }
}

#[verifier::rlimit(30)]
proof fn lemma_add32(m: Machine, d: WasmLocal, o: LocalOrImmedate)
    requires
        m.wf(),
        m.local(d) is Some,
        operand_value(m, o) is Some,
    ensures
        run(m, gen_alu32_code(Alu32::Add, d, o)) == Some(after_alu32_at(m, Alu32::Add, d, operand_value(m, o)->0)),
{
    let a = m.local(d)->0;
    let b = operand_value(m, o)->0;
    lemma_local_after_set(m, d, alu32_value(Alu32::Add, a, b));
    lemma_operand_op(Machine { last_op1: a, ..m }.push(a), o);
    assert(gen_alu32_code(Alu32::Add, d, o).len() == 8);
    reveal_with_fuel(run_from, 9);
}

#[verifier::rlimit(30)]
proof fn lemma_sub32(m: Machine, d: WasmLocal, o: LocalOrImmedate)
    requires
        m.wf(),
        m.local(d) is Some,
        operand_value(m, o) is Some,
    ensures
        run(m, gen_alu32_code(Alu32::Sub, d, o)) == Some(after_alu32_at(m, Alu32::Sub, d, operand_value(m, o)->0)),
{
    let a = m.local(d)->0;
    let b = operand_value(m, o)->0;
    lemma_local_after_set(m, d, alu32_value(Alu32::Sub, a, b));
    lemma_operand_op(Machine { last_op1: a, ..m }.push(a), o);
    assert(gen_alu32_code(Alu32::Sub, d, o).len() == 8);
    reveal_with_fuel(run_from, 9);
}

#[verifier::rlimit(30)]
proof fn lemma_and32(m: Machine, d: WasmLocal, o: LocalOrImmedate)
    requires
        m.wf(),
        m.local(d) is Some,
        operand_value(m, o) is Some,
    ensures
        run(m, gen_alu32_code(Alu32::And, d, o)) == Some(after_alu32_at(m, Alu32::And, d, operand_value(m, o)->0)),
{
    let a = m.local(d)->0;
    let b = operand_value(m, o)->0;
    lemma_local_after_set(m, d, alu32_value(Alu32::And, a, b));
    lemma_operand_op(m.push(a), o);
    assert(gen_alu32_code(Alu32::And, d, o).len() == 8);
    reveal_with_fuel(run_from, 9);
}

#[verifier::rlimit(30)]
proof fn lemma_or32(m: Machine, d: WasmLocal, o: LocalOrImmedate)
    requires
        m.wf(),
        m.local(d) is Some,
        operand_value(m, o) is Some,
    ensures
        run(m, gen_alu32_code(Alu32::Or, d, o)) == Some(after_alu32_at(m, Alu32::Or, d, operand_value(m, o)->0)),
{
    let a = m.local(d)->0;
    let b = operand_value(m, o)->0;
    lemma_local_after_set(m, d, alu32_value(Alu32::Or, a, b));
    lemma_operand_op(m.push(a), o);
    assert(gen_alu32_code(Alu32::Or, d, o).len() == 8);
    reveal_with_fuel(run_from, 9);
}

#[verifier::rlimit(30)]
proof fn lemma_xor32(m: Machine, d: WasmLocal, o: LocalOrImmedate)
    requires
        m.wf(),
        m.local(d) is Some,
        operand_value(m, o) is Some,
    ensures
        run(m, gen_alu32_code(Alu32::Xor, d, o)) == Some(after_alu32_at(m, Alu32::Xor, d, operand_value(m, o)->0)),
{
    let a = m.local(d)->0;
    let b = operand_value(m, o)->0;
    lemma_local_after_set(m, d, alu32_value(Alu32::Xor, a, b));
    lemma_operand_op(m.push(a), o);
    assert(gen_alu32_code(Alu32::Xor, d, o).len() == 8);
    reveal_with_fuel(run_from, 9);
}

/// A 32-bit addition, subtraction, and, or, or exclusive or of a local and a second
/// operand (a local, a constant or the immediate read last) computes its result into the
/// local.
pub proof fn law_alu32(m: Machine, op: Alu32, d: WasmLocal, o: LocalOrImmedate)
    requires
        m.wf(),
        m.local(d) is Some,
        operand_value(m, o) is Some,
        inline_alu32(op),
    ensures
        run(m, gen_alu32_code(op, d, o)) == Some(after_alu32_at(m, op, d, operand_value(m, o)->0)),
{
    if op is Add {
        lemma_add32(m, d, o);
    } else if op is Sub {
        lemma_sub32(m, d, o);
    } else if op is And {
        lemma_and32(m, d, o);
    } else if op is Or {
        lemma_or32(m, d, o);
    } else {
        lemma_xor32(m, d, o);
    }
}

/// A 32-bit addition, subtraction, and, or, or exclusive or of two registers computes its
/// result into the destination register.
pub proof fn law_alu32_reg(m: Machine, op: Alu32, d: u32, s: u32)
    requires
        m.wf(),
        d < 8,
        s < 8,
        inline_alu32(op),
    ensures
        run(m, gen_alu32_code(op, WasmLocal::Register(d), LocalOrImmedate::WasmLocal(WasmLocal::Register(s)))) == Some(
            after_alu32(m, op, d, m.regs[s as int]),
        ),
{
    law_alu32(m, op, WasmLocal::Register(d), LocalOrImmedate::WasmLocal(WasmLocal::Register(s)));
}

/// A 32-bit addition, subtraction, and, or, or exclusive or of a register and an immediate
/// computes its result into the register.
pub proof fn law_alu32_imm(m: Machine, op: Alu32, d: u32, imm: i32)
    requires
        m.wf(),
        d < 8,
        inline_alu32(op),
    ensures
        run(m, gen_alu32_code(op, WasmLocal::Register(d), LocalOrImmedate::Immediate(imm))) == Some(
            after_alu32(m, op, d, imm as u32),
        ),
{
    law_alu32(m, op, WasmLocal::Register(d), LocalOrImmedate::Immediate(imm));
}

/// The register forms of `add`, `or`, `adc`, `sbb`, `and`, `sub` and `xor` with 32-bit
/// operands (opcodes `01`, `09`, ..., `31`): `r1 = r1 op r2`.
pub proof fn law_rmw32_reg_reg(m: Machine, op: Alu32, r1: u32, r2: u32)
    requires
        m.wf(),
        r1 < 8,
        r2 < 8,
        inline_alu32(op),
    ensures
        run(m, rmw32_reg_reg_code(op, r1, r2)) == Some(after_alu32(m, op, r1, m.regs[r2 as int])),
{
    law_alu32_reg(m, op, r1, r2);
}

/// The register forms of opcodes `03`, `0B`, ..., `33` with 32-bit operands: `r2 = r2 op r1`.
pub proof fn law_write_reg32_reg(m: Machine, op: Alu32, r1: u32, r2: u32)
    requires
        m.wf(),
        r1 < 8,
        r2 < 8,
        inline_alu32(op),
    ensures
        run(m, write_reg32_reg_code(op, r1, r2)) == Some(after_alu32(m, op, r2, m.regs[r1 as int])),
{
    law_alu32_reg(m, op, r2, r1);
}

/// Opcodes `05`, `0D`, ..., `35` with 32-bit operands: `EAX = EAX op imm32`.
pub proof fn law_alu32_eax_imm(m: Machine, op: Alu32, imm32: u32)
    requires
        m.wf(),
        inline_alu32(op),
    ensures
        run(m, group_arith_eax_imm32_code(op, imm32)) == Some(after_alu32(m, op, EAX, imm32)),
{
    law_alu32_imm(m, op, EAX, imm32 as i32);
    assert((imm32 as i32) as u32 == imm32) by (bit_vector);
}

/// The register forms of groups `81` and `83` with 32-bit operands: `r1 = r1 op imm`.
pub proof fn law_alu32_reg_imm(m: Machine, op: Alu32, r1: u32, imm: u32)
    requires
        m.wf(),
        r1 < 8,
        inline_alu32(op),
    ensures
        run(m, rmw32_alu_imm_reg_code(op, r1, imm)) == Some(after_alu32(m, op, r1, imm)),
{
    law_alu32_imm(m, op, r1, imm as i32);
    assert((imm as i32) as u32 == imm) by (bit_vector);
}

/// The cells after `cmp` (or `test`, when `test` holds) of `a` with `b` at 32 bits: `cmp`
/// records the difference and `a` for the lazily computed flags; `test` records the
/// conjunction and computes carry, overflow and adjust at once as zero.
pub open spec fn after_compare32_values(m: Machine, test: bool, a: u32, b: u32) -> Machine {
    if test {
        Machine {
            last_result: a & b,
            last_op_size: OPSIZE_32 as u32,
            flags_changed: (FLAGS_ALL & !FLAG_CARRY & !FLAG_OVERFLOW & !FLAG_ADJUST) as u32,
            flags: m.flags & !((FLAG_CARRY | FLAG_OVERFLOW | FLAG_ADJUST) as u32),
            ..m
        }
    } else {
        Machine {
            last_result: wrapping_sub(a, b),
            last_op1: a,
            last_op_size: OPSIZE_32 as u32,
            flags_changed: (FLAGS_ALL | FLAG_SUB) as u32,
            ..m
        }
    }
}

#[verifier::rlimit(60)]
proof fn lemma_compare32_sub(m: Machine, d: WasmLocal, o: LocalOrImmedate)
    requires
        m.wf(),
        m.local(d) is Some,
        operand_value(m, o) is Some,
    ensures
        run(m, gen_compare_code(false, d, o, OPSIZE_32)) == Some(
            after_compare32_values(m, false, m.local(d)->0, operand_value(m, o)->0),
        ),
{
    lemma_operand_op(m.push_address(GlobalPointer::LastResult).push(m.local(d)->0), o);
    assert(gen_compare_code(false, d, o, OPSIZE_32).len() == 10);
    reveal_with_fuel(run_from, 11);
}

#[verifier::rlimit(60)]
proof fn lemma_test32(m: Machine, d: WasmLocal, o: LocalOrImmedate)
    requires
        m.wf(),
        m.local(d) is Some,
        operand_value(m, o) is Some,
    ensures
        run(m, gen_compare_code(true, d, o, OPSIZE_32)) == Some(
            after_compare32_values(m, true, m.local(d)->0, operand_value(m, o)->0),
        ),
{
    lemma_operand_op(m.push_address(GlobalPointer::LastResult).push(m.local(d)->0), o);
    assert(gen_compare_code(true, d, o, OPSIZE_32).len() == 8);
    reveal_with_fuel(run_from, 9);
}

/// `cmp` and `test` at 32 bits of a local with a second operand (a local, a constant or
/// the immediate read last) record their result for the lazily computed flags and change
/// no local.
pub proof fn law_compare32(m: Machine, test: bool, d: WasmLocal, o: LocalOrImmedate)
    requires
        m.wf(),
        m.local(d) is Some,
        operand_value(m, o) is Some,
    ensures
        run(m, gen_compare_code(test, d, o, OPSIZE_32)) == Some(
            after_compare32_values(m, test, m.local(d)->0, operand_value(m, o)->0),
        ),
{
    if test {
        lemma_test32(m, d, o);
    } else {
        lemma_compare32_sub(m, d, o);
    }
}

/// The machine after `cmp` of register `d` with `b` at 32 bits: the difference and `d`
/// are recorded for the lazily computed flags, and the registers are unchanged.
pub open spec fn after_compare32(m: Machine, d: u32, b: u32) -> Machine {
    after_compare32_values(m, false, m.regs[d as int], b)
}

/// The machine after `test` of register `d` with `b` at 32 bits: their conjunction is
/// recorded; carry, overflow and adjust are computed at once as zero.
pub open spec fn after_test32(m: Machine, d: u32, b: u32) -> Machine {
    after_compare32_values(m, true, m.regs[d as int], b)
}

/// `cmp` and `test` of two 32-bit registers (opcodes `39`, `3B` and `85`) record their
/// result for the lazily computed flags and leave the registers unchanged.
pub proof fn law_compare32_reg(m: Machine, test: bool, d: u32, s: u32)
    requires
        m.wf(),
        d < 8,
        s < 8,
    ensures
        run(m, gen_compare_code(test, WasmLocal::Register(d), LocalOrImmedate::WasmLocal(WasmLocal::Register(s)), OPSIZE_32))
            == Some(if test { after_test32(m, d, m.regs[s as int]) } else { after_compare32(m, d, m.regs[s as int]) }),
{
    law_compare32(m, test, WasmLocal::Register(d), LocalOrImmedate::WasmLocal(WasmLocal::Register(s)));
}

/// `cmp` and `test` of a 32-bit register with an immediate (opcodes `3D`, `A9`, and the
/// register forms of `81 /7`, `83 /7` and `F7 /0`) record their result for the lazily
/// computed flags and leave the registers unchanged.
pub proof fn law_compare32_imm(m: Machine, test: bool, d: u32, imm: i32)
    requires
        m.wf(),
        d < 8,
    ensures
        run(m, gen_compare_code(test, WasmLocal::Register(d), LocalOrImmedate::Immediate(imm), OPSIZE_32))
            == Some(if test { after_test32(m, d, imm as u32) } else { after_compare32(m, d, imm as u32) }),
{
    law_compare32(m, test, WasmLocal::Register(d), LocalOrImmedate::Immediate(imm));
}


/// `xchg` of a register with EAX (opcodes `91` to `97` with 32-bit operands) swaps the
/// two registers; the temporary it uses is released again.
pub proof fn law_xchg_eax(m: Machine, r: u32, n: u32)
    requires
        m.wf(),
        r < 8,
        key_index(m.temps, n, m.temps.len()) < 0,
    ensures
        run(m, gen_xchg_reg32_code(r, n)) == Some(
            Machine { regs: m.regs.update(r as int, m.regs[EAX as int]).update(EAX as int, m.regs[r as int]), ..m },
        ),
{
    reveal_with_fuel(run_from, 8);
    assert(m.temps.push((n, m.regs[r as int])).remove(m.temps.len() as int) =~= m.temps);
}

/// `xchg` of two registers (opcode `87` with 32-bit operands) swaps them.
#[verifier::rlimit(60)]
pub proof fn law_xchg32(m: Machine, r1: u32, r2: u32, n: u32)
    requires
        m.wf(),
        r1 < 8,
        r2 < 8,
        key_index(m.temps, n, m.temps.len()) < 0,
    ensures
        run(m, instr32_87_reg_jit_code(r1, r2, n)) == Some(
            Machine { regs: m.regs.update(r2 as int, m.regs[r1 as int]).update(r1 as int, m.regs[r2 as int]), ..m },
        ),
{
    assert(instr32_87_reg_jit_code(r1, r2, n).len() == 7);
    reveal_with_fuel(run_from, 8);
    assert(m.temps.push((n, m.regs[r2 as int])).remove(m.temps.len() as int) =~= m.temps);
}

/// Reading an 8-bit register after writing one: the register written gives the byte
/// written, every other 8-bit register is unchanged (AL and AH share EAX, but no bits).
pub proof fn law_reg8_read_after_write(regs: Seq<u32>, a: u32, b: u32, v: u32)
    requires
        regs.len() == 8,
        a < 8,
        b < 8,
    ensures
        set_reg8(regs, a, v).len() == 8,
        reg8(set_reg8(regs, a, v), b) == if a == b {
            v & 0xFF
        } else {
            reg8(regs, b)
        },
{
    if a < 4 {
        let x = regs[a as int];
        let y = (x & 0xFFFF_FF00) | (v & 0xFF);
        assert(y & 0xFF == v & 0xFF) by (bit_vector)
            requires
                y == (x & 0xFFFF_FF00) | (v & 0xFF),
        ;
        assert((y >> 8u32) & 0xFF == (x >> 8u32) & 0xFF) by (bit_vector)
            requires
                y == (x & 0xFFFF_FF00) | (v & 0xFF),
        ;
    } else {
        let x = regs[a - 4];
        let y = (x & 0xFFFF_00FF) | ((v & 0xFF) << 8u32);
        assert((y >> 8u32) & 0xFF == v & 0xFF) by (bit_vector)
            requires
                y == (x & 0xFFFF_00FF) | ((v & 0xFF) << 8u32),
        ;
        assert(y & 0xFF == x & 0xFF) by (bit_vector)
            requires
                y == (x & 0xFFFF_00FF) | ((v & 0xFF) << 8u32),
        ;
    }
}

/// `xchg` of two 8-bit registers (opcode `86`) swaps them and leaves every other 8-bit
/// register unchanged.
#[verifier::rlimit(60)]
pub proof fn law_xchg8(m: Machine, r1: u32, r2: u32, n: u32)
    requires
        m.wf(),
        r1 < 8,
        r2 < 8,
        key_index(m.temps, n, m.temps.len()) < 0,
    ensures
        run(m, instr_86_reg_jit_code(r1, r2, n)) is Some,
        reg8(run(m, instr_86_reg_jit_code(r1, r2, n))->0.regs, r1) == reg8(m.regs, r2),
        reg8(run(m, instr_86_reg_jit_code(r1, r2, n))->0.regs, r2) == reg8(m.regs, r1),
        forall|k: u32|
            k < 8 && k != r1 && k != r2 ==> #[trigger] reg8(run(m, instr_86_reg_jit_code(r1, r2, n))->0.regs, k)
                == reg8(m.regs, k),
{
    let first = set_reg8(m.regs, r2, reg8(m.regs, r1));
    let second = set_reg8(first, r1, reg8(m.regs, r2));
    assert(instr_86_reg_jit_code(r1, r2, n).len() == 7);
    assert(run(m, instr_86_reg_jit_code(r1, r2, n)) == Some(Machine { regs: second, ..m })) by {
        reveal_with_fuel(run_from, 8);
        assert(m.temps.push((n, reg8(m.regs, r2))).remove(m.temps.len() as int) =~= m.temps);
    }
    law_reg8_read_after_write(m.regs, r2, r1, reg8(m.regs, r1));
    law_reg8_read_after_write(first, r1, r1, reg8(m.regs, r2));
    law_reg8_read_after_write(m.regs, r2, r2, reg8(m.regs, r1));
    law_reg8_read_after_write(first, r1, r2, reg8(m.regs, r2));
    assert((reg8(m.regs, r1) & 0xFF) == reg8(m.regs, r1)) by {
        let x = m.regs[if r1 < 4 { r1 as int } else { r1 - 4 }];
        assert((x & 0xFF) & 0xFF == x & 0xFF) by (bit_vector);
        assert(((x >> 8u32) & 0xFF) & 0xFF == (x >> 8u32) & 0xFF) by (bit_vector);
    }
    assert((reg8(m.regs, r2) & 0xFF) == reg8(m.regs, r2)) by {
        let x = m.regs[if r2 < 4 { r2 as int } else { r2 - 4 }];
        assert((x & 0xFF) & 0xFF == x & 0xFF) by (bit_vector);
        assert(((x >> 8u32) & 0xFF) & 0xFF == (x >> 8u32) & 0xFF) by (bit_vector);
    }
    assert forall|k: u32| k < 8 && k != r1 && k != r2 implies #[trigger] reg8(second, k) == reg8(m.regs, k) by {
        law_reg8_read_after_write(m.regs, r2, k, reg8(m.regs, r1));
        law_reg8_read_after_write(first, r1, k, reg8(m.regs, r2));
    }
}

/// `xchg` of two 16-bit registers (opcode `87` with 16-bit operands) swaps their low 16
/// bits and keeps their high 16 bits.
#[verifier::rlimit(60)]
pub proof fn law_xchg16(m: Machine, r1: u32, r2: u32, n: u32)
    requires
        m.wf(),
        r1 < 8,
        r2 < 8,
        r1 != r2,
        key_index(m.temps, n, m.temps.len()) < 0,
    ensures
        run(m, instr16_87_reg_jit_code(r1, r2, n)) is Some,
        run(m, instr16_87_reg_jit_code(r1, r2, n))->0.regs[r1 as int] & 0xFFFF == m.regs[r2 as int] & 0xFFFF,
        run(m, instr16_87_reg_jit_code(r1, r2, n))->0.regs[r2 as int] & 0xFFFF == m.regs[r1 as int] & 0xFFFF,
        run(m, instr16_87_reg_jit_code(r1, r2, n))->0.regs[r1 as int] & 0xFFFF_0000 == m.regs[r1 as int] & 0xFFFF_0000,
        run(m, instr16_87_reg_jit_code(r1, r2, n))->0.regs[r2 as int] & 0xFFFF_0000 == m.regs[r2 as int] & 0xFFFF_0000,
        forall|k: int| 0 <= k < 8 && k != r1 && k != r2 ==> #[trigger] run(m, instr16_87_reg_jit_code(r1, r2, n))->0.regs[k] == m.regs[k],
{
    let a = m.regs[r1 as int];
    let b = m.regs[r2 as int];
    let regs = m.regs.update(r2 as int, with_low16(b, a & 0xFFFF)).update(r1 as int, with_low16(a, b & 0xFFFF));
    assert(instr16_87_reg_jit_code(r1, r2, n).len() == 7);
    assert(run(m, instr16_87_reg_jit_code(r1, r2, n)) == Some(Machine { regs, ..m })) by {
        reveal_with_fuel(run_from, 8);
        assert(m.temps.push((n, b & 0xFFFF)).remove(m.temps.len() as int) =~= m.temps);
    }
    assert(with_low16(a, b & 0xFFFF) & 0xFFFF == b & 0xFFFF) by (bit_vector);
    assert(with_low16(b, a & 0xFFFF) & 0xFFFF == a & 0xFFFF) by (bit_vector);
    assert(with_low16(a, b & 0xFFFF) & 0xFFFF_0000 == a & 0xFFFF_0000) by (bit_vector);
    assert(with_low16(b, a & 0xFFFF) & 0xFFFF_0000 == b & 0xFFFF_0000) by (bit_vector);
}

/// `mov` between 32-bit registers: opcode `89` copies `r2` into `r1`, opcode `8B` copies
/// `r1` into `r2`.
pub proof fn law_mov32(m: Machine, r1: u32, r2: u32)
    requires
        m.wf(),
        r1 < 8,
        r2 < 8,
    ensures
        run(m, instr32_89_reg_jit_code(r1, r2)) == Some(Machine { regs: m.regs.update(r1 as int, m.regs[r2 as int]), ..m }),
        run(m, instr32_8B_reg_jit_code(r1, r2)) == Some(Machine { regs: m.regs.update(r2 as int, m.regs[r1 as int]), ..m }),
{
    reveal_with_fuel(run_from, 2);
}

/// `mov r32, imm32` (opcodes `B8` to `BF`) stores the immediate.
pub proof fn law_mov32_imm(m: Machine, r: u32, imm: u32)
    requires
        m.wf(),
        r < 8,
    ensures
        run(m, gen_mov_reg32_imm_code(r, imm)) == Some(Machine { regs: m.regs.update(r as int, imm), ..m }),
{
    reveal_with_fuel(run_from, 3);
    assert((imm as i32) as u32 == imm) by (bit_vector);
}

/// `cdq` sets every bit of EDX to the sign bit of EAX.
pub proof fn law_cdq(m: Machine)
    requires
        m.wf(),
    ensures
        run(m, instr32_99_jit_code()) == Some(
            Machine {
                regs: m.regs.update(
                    EDX as int,
                    if m.regs[EAX as int] & 0x8000_0000 == 0 {
                        0u32
                    } else {
                        0xFFFF_FFFFu32
                    },
                ),
                ..m
            },
        ),
{
    reveal_with_fuel(run_from, 5);
    let v = m.regs[EAX as int];
    assert((31i32 as u32) & 31 == 31u32) by (bit_vector);
    assert(((v as i32) >> 31u32) as u32 == if v & 0x8000_0000 == 0 {
        0u32
    } else {
        0xFFFF_FFFFu32
    }) by (bit_vector);
}

/// `cwde` sign-extends AX into EAX.
pub proof fn law_cwde(m: Machine)
    requires
        m.wf(),
    ensures
        run(m, instr32_98_jit_code()) == Some(
            Machine { regs: m.regs.update(EAX as int, sign_extend16(m.regs[EAX as int])), ..m },
        ),
{
    reveal_with_fuel(run_from, 4);
    let v = m.regs[EAX as int];
    assert(sign_extend16(v & 0xFFFF) == sign_extend16(v)) by (bit_vector);
}

/// `movzx` from an 8-bit register into a 32-bit register (opcode `0F B6`).
pub proof fn law_movzx8(m: Machine, r1: u32, r2: u32)
    requires
        m.wf(),
        r1 < 8,
        r2 < 8,
    ensures
        run(m, instr32_0FB6_reg_jit_code(r1, r2)) == Some(Machine { regs: m.regs.update(r2 as int, reg8(m.regs, r1)), ..m }),
{
    reveal_with_fuel(run_from, 3);
}

/// `movzx` from a 16-bit register into a 32-bit register (opcode `0F B7`).
pub proof fn law_movzx16(m: Machine, r1: u32, r2: u32)
    requires
        m.wf(),
        r1 < 8,
        r2 < 8,
    ensures
        run(m, instr32_0FB7_reg_jit_code(r1, r2)) == Some(
            Machine { regs: m.regs.update(r2 as int, m.regs[r1 as int] & 0xFFFF), ..m },
        ),
{
    reveal_with_fuel(run_from, 3);
}

/// `movsx` from an 8-bit register into a 32-bit register (opcode `0F BE`).
pub proof fn law_movsx8(m: Machine, r1: u32, r2: u32)
    requires
        m.wf(),
        r1 < 8,
        r2 < 8,
    ensures
        run(m, instr32_0FBE_reg_jit_code(r1, r2)) == Some(
            Machine { regs: m.regs.update(r2 as int, sign_extend8(reg8(m.regs, r1))), ..m },
        ),
{
    reveal_with_fuel(run_from, 4);
}

/// `movsx` from a 16-bit register into a 32-bit register (opcode `0F BF`).
pub proof fn law_movsx16(m: Machine, r1: u32, r2: u32)
    requires
        m.wf(),
        r1 < 8,
        r2 < 8,
    ensures
        run(m, instr32_0FBF_reg_jit_code(r1, r2)) == Some(
            Machine { regs: m.regs.update(r2 as int, sign_extend16(m.regs[r1 as int])), ..m },
        ),
{
    reveal_with_fuel(run_from, 4);
    let v = m.regs[r1 as int];
    assert(sign_extend16(v & 0xFFFF) == sign_extend16(v)) by (bit_vector);
}

/// `sahf`: the low byte of the flags becomes AH (bit 1 reads as one, bits 3 and 5 as
/// zero), and those flags are no longer computed lazily.
#[verifier::rlimit(60)]
pub proof fn law_sahf(m: Machine)
    requires
        m.wf(),
    ensures
        run(m, instr_9E_jit_code()) == Some(
            Machine {
                flags: (((m.flags & !0xFFu32) | reg8(m.regs, 4)) & (FLAGS_MASK as u32)) | (FLAGS_DEFAULT as u32),
                flags_changed: m.flags_changed & !0xFFu32,
                ..m
            },
        ),
{
    assert(instr_9E_jit_code().len() == 16);
    reveal_with_fuel(run_from, 17);
    assert((NOT_LOW_BYTE as u32) == !0xFFu32) by (bit_vector);
}

/// `cld` clears the direction flag; no other flag changes.
pub proof fn law_cld(m: Machine)
    requires
        m.wf(),
    ensures
        run(m, instr_FC_jit_code()) == Some(Machine { flags: m.flags & !(FLAG_DIRECTION as u32), ..m }),
{
    reveal_with_fuel(run_from, 6);
    assert((NOT_DIRECTION as u32) == !(FLAG_DIRECTION as u32)) by (bit_vector);
}

/// `std` sets the direction flag; no other flag changes.
pub proof fn law_std(m: Machine)
    requires
        m.wf(),
    ensures
        run(m, instr_FD_jit_code()) == Some(Machine { flags: m.flags | (FLAG_DIRECTION as u32), ..m }),
{
    reveal_with_fuel(run_from, 6);
}

/// `bt` between registers with 32-bit operands: the carry flag becomes bit `r2 & 31` of
/// `r1` and is no longer computed lazily; the other flags keep their values.
#[verifier::rlimit(100)]
pub proof fn law_bt32_reg(m: Machine, r1: u32, r2: u32)
    requires
        m.wf(),
        r1 < 8,
        r2 < 8,
    ensures
        run(m, instr32_0FA3_reg_jit_code(r1, r2)) == Some(
            Machine {
                flags: (m.flags & !1u32) | ((m.regs[r1 as int] >> (m.regs[r2 as int] & 31)) & 1),
                flags_changed: m.flags_changed & !1u32,
                ..m
            },
        ),
{
    assert(instr32_0FA3_reg_jit_code(r1, r2).len() == 18);
    reveal_with_fuel(run_from, 19);
    let s = m.regs[r2 as int];
    assert((NOT_CARRY as u32) == !1u32) by (bit_vector);
    assert(((s & (31i32 as u32)) & 31) == (s & 31)) by (bit_vector);
    assert((1i32 as u32) == 1u32) by (bit_vector);
}

/// `bt` of a 32-bit register with an immediate bit offset: the carry flag becomes bit
/// `imm8 & 31` of `r`.
#[verifier::rlimit(60)]
pub proof fn law_bt32_imm(m: Machine, r: u32, imm8: u32)
    requires
        m.wf(),
        r < 8,
    ensures
        run(m, instr32_0FBA_4_reg_jit_code(r, imm8)) == Some(
            Machine {
                flags: (m.flags & !1u32) | ((m.regs[r as int] >> (imm8 & 31)) & 1),
                flags_changed: m.flags_changed & !1u32,
                ..m
            },
        ),
{
    assert(instr32_0FBA_4_reg_jit_code(r, imm8).len() == 16);
    reveal_with_fuel(run_from, 17);
    assert((NOT_CARRY as u32) == !1u32) by (bit_vector);
    assert((((imm8 as i32) & (31u32 as i32)) as u32) & 31 == (imm8 & 31)) by (bit_vector);
    assert((1i32 as u32) == 1u32) by (bit_vector);
}

} // verus!
