//! What the code that calls the runtime's helpers computes: which registers it passes,
//! in which order, and where the result goes; and the conditional set, and the pops into
//! registers.  The helpers themselves are the runtime's: the machine of
//! [`crate::semantics`] takes how they compute as given.

use vstd::prelude::*;
use crate::op::Op;
use crate::consts::{CL, ESP};
use crate::templates::{
    rmw8_reg_reg_code, write_reg8_reg_code, rmw8_one_reg_code, rmw8_cl_reg_code, rmw8_imm_reg_code,
    rmw8_shift_reg_code, rmw16_reg_reg_code, write_reg16_reg_code, rmw16_one_reg_code,
    rmw16_cl_reg_code, rmw16_imm_reg_code, rmw16_shift_reg_code, rmw16_reg_cl_reg_code,
    rmw16_reg_shift_reg_code, rmw32_one_reg_code, rmw32_cl_reg_code, rmw32_imm_reg_code,
    rmw32_shift_reg_code, rmw32_reg_cl_reg_code, rmw32_reg_shift_reg_code, setcc_reg_code,
    pop16_reg_jit_code, pop32_reg_jit_code,
};
use crate::semantics::{
    Machine, Value, run, run_from, exec_call, exec_access, reg8, set_reg8, with_low16, read16,
    read32,
};

verus! {

/// Pushing a value and dropping it again leaves the stack.
pub broadcast proof fn lemma_push_drop(s: Seq<Value>, v: Value)
    ensures
        #[trigger] s.push(v).drop_last() == s,
{
    assert(s.push(v).drop_last() =~= s);
}

proof fn lemma_constants(imm: u32)
    by (bit_vector)
    ensures
        (0i32 as u32) == 0u32,
        (1i32 as u32) == 1u32,
        (31i32 as u32) == 31u32,
        (imm as i32) as u32 == imm,
        ((imm & 31) as i32) as u32 == imm & 31,
{
}

/// The machine with 8-bit register `r` set to the low byte of `v`.
pub open spec fn with_reg8(m: Machine, r: u32, v: u32) -> Machine {
    Machine { regs: set_reg8(m.regs, r, v), ..m }
}

/// The machine with the low half of register `r` set to the low half of `v`.
pub open spec fn with_reg16(m: Machine, r: u32, v: u32) -> Machine {
    Machine { regs: m.regs.update(r as int, with_low16(m.regs[r as int], v)), ..m }
}

/// The machine with register `r` set to `v`.
pub open spec fn with_reg32(m: Machine, r: u32, v: u32) -> Machine {
    Machine { regs: m.regs.update(r as int, v), ..m }
}

/// The 16-bit register `r`.
pub open spec fn reg16(m: Machine, r: u32) -> u32 {
    m.regs[r as int] & 0xFFFF
}

/// The shift count that CL gives: its low five bits.
pub open spec fn cl_count(m: Machine) -> u32 {
    reg8(m.regs, CL) & 31
}

/// The machine after calling helper `name` with `args` and storing its result with
/// `store` (8, 16 or 32 bits) into register `r`.
pub open spec fn stored_result(m: Machine, name: &'static str, args: Seq<u32>, r: u32, size: u32) -> Machine {
    let x = m.called(name, args);
    let v = m.call_result(name, args);
    if size == 8 {
        with_reg8(x, r, v)
    } else if size == 16 {
        with_reg16(x, r, v)
    } else {
        with_reg32(x, r, v)
    }
}

/// The register forms of the 8-bit read-modify-write instructions (opcodes `00`, `08`,
/// ..., `30` and the like): `r1` becomes the helper applied to `r1` and then `r2`.
#[verifier::rlimit(40)]
pub proof fn law_rmw8_reg_reg(m: Machine, name: &'static str, r1: u32, r2: u32)
    requires
        m.wf(),
        r1 < 8,
        r2 < 8,
    ensures
        run(m, rmw8_reg_reg_code(name, r1, r2)) == Some(stored_result(m, name, seq![reg8(m.regs, r1), reg8(m.regs, r2)], r1, 8)),
{
    reveal(exec_call);
    broadcast use lemma_push_drop;
    lemma_constants(0);
    reveal_with_fuel(run_from, 5);
}

/// The register forms of the 8-bit instructions that write their register operand (opcodes
/// `02`, `0A`, ..., `32`): `r2` becomes the helper applied to `r2` and then `r1`.
#[verifier::rlimit(40)]
pub proof fn law_write_reg8_reg(m: Machine, name: &'static str, r1: u32, r2: u32)
    requires
        m.wf(),
        r1 < 8,
        r2 < 8,
    ensures
        run(m, write_reg8_reg_code(name, r1, r2)) == Some(stored_result(m, name, seq![reg8(m.regs, r2), reg8(m.regs, r1)], r2, 8)),
{
    reveal(exec_call);
    broadcast use lemma_push_drop;
    lemma_constants(0);
    reveal_with_fuel(run_from, 5);
}

/// 8-bit shifts and rotates by one of a register: the helper gets the register and 1.
#[verifier::rlimit(40)]
pub proof fn law_rmw8_one_reg(m: Machine, name: &'static str, r1: u32)
    requires
        m.wf(),
        r1 < 8,
    ensures
        run(m, rmw8_one_reg_code(name, r1)) == Some(stored_result(m, name, seq![reg8(m.regs, r1), 1u32], r1, 8)),
{
    reveal(exec_call);
    broadcast use lemma_push_drop;
    lemma_constants(0);
    reveal_with_fuel(run_from, 5);
}

/// 8-bit shifts and rotates by CL of a register: the helper gets the register and the low
/// five bits of CL.
#[verifier::rlimit(40)]
pub proof fn law_rmw8_cl_reg(m: Machine, name: &'static str, r1: u32)
    requires
        m.wf(),
        r1 < 8,
    ensures
        run(m, rmw8_cl_reg_code(name, r1)) == Some(stored_result(m, name, seq![reg8(m.regs, r1), cl_count(m)], r1, 8)),
{
    reveal(exec_call);
    broadcast use lemma_push_drop;
    lemma_constants(0);
    reveal_with_fuel(run_from, 7);
}

/// 8-bit operations of a register with an immediate: the helper gets the register and the
/// immediate.
#[verifier::rlimit(40)]
pub proof fn law_rmw8_imm_reg(m: Machine, name: &'static str, r1: u32, imm: u32)
    requires
        m.wf(),
        r1 < 8,
    ensures
        run(m, rmw8_imm_reg_code(name, r1, imm)) == Some(stored_result(m, name, seq![reg8(m.regs, r1), imm], r1, 8)),
{
    reveal(exec_call);
    broadcast use lemma_push_drop;
    lemma_constants(imm);
    reveal_with_fuel(run_from, 5);
}

/// 8-bit shifts and rotates of a register by an immediate: the helper gets the register and
/// the low five bits of the immediate.
#[verifier::rlimit(40)]
pub proof fn law_rmw8_shift_reg(m: Machine, name: &'static str, r1: u32, imm: u32)
    requires
        m.wf(),
        r1 < 8,
    ensures
        run(m, rmw8_shift_reg_code(name, r1, imm)) == Some(stored_result(m, name, seq![reg8(m.regs, r1), imm & 31], r1, 8)),
{
    reveal(exec_call);
    broadcast use lemma_push_drop;
    lemma_constants(imm);
    reveal_with_fuel(run_from, 5);
}

/// The register forms of the 16-bit read-modify-write instructions: the low half of `r1`
/// becomes the helper applied to the low halves of `r1` and then `r2`; the high half is
/// kept.
#[verifier::rlimit(40)]
pub proof fn law_rmw16_reg_reg(m: Machine, name: &'static str, r1: u32, r2: u32)
    requires
        m.wf(),
        r1 < 8,
        r2 < 8,
    ensures
        run(m, rmw16_reg_reg_code(name, r1, r2)) == Some(stored_result(m, name, seq![reg16(m, r1), reg16(m, r2)], r1, 16)),
{
    reveal(exec_call);
    broadcast use lemma_push_drop;
    lemma_constants(0);
    reveal_with_fuel(run_from, 5);
}

/// The register forms of the 16-bit instructions that write their register operand: the
/// low half of `r2` becomes the helper applied to `r2` and then `r1`.
#[verifier::rlimit(40)]
pub proof fn law_write_reg16_reg(m: Machine, name: &'static str, r1: u32, r2: u32)
    requires
        m.wf(),
        r1 < 8,
        r2 < 8,
    ensures
        run(m, write_reg16_reg_code(name, r1, r2)) == Some(stored_result(m, name, seq![reg16(m, r2), reg16(m, r1)], r2, 16)),
{
    reveal(exec_call);
    broadcast use lemma_push_drop;
    lemma_constants(0);
    reveal_with_fuel(run_from, 5);
}

/// 16-bit shifts and rotates by one of a register.
#[verifier::rlimit(40)]
pub proof fn law_rmw16_one_reg(m: Machine, name: &'static str, r1: u32)
    requires
        m.wf(),
        r1 < 8,
    ensures
        run(m, rmw16_one_reg_code(name, r1)) == Some(stored_result(m, name, seq![reg16(m, r1), 1u32], r1, 16)),
{
    reveal(exec_call);
    broadcast use lemma_push_drop;
    lemma_constants(0);
    reveal_with_fuel(run_from, 5);
}

/// 16-bit shifts and rotates by CL of a register: the count is the low five bits of CL.
#[verifier::rlimit(40)]
pub proof fn law_rmw16_cl_reg(m: Machine, name: &'static str, r1: u32)
    requires
        m.wf(),
        r1 < 8,
    ensures
        run(m, rmw16_cl_reg_code(name, r1)) == Some(stored_result(m, name, seq![reg16(m, r1), cl_count(m)], r1, 16)),
{
    reveal(exec_call);
    broadcast use lemma_push_drop;
    lemma_constants(0);
    reveal_with_fuel(run_from, 7);
}

/// 16-bit operations of a register with an immediate.
#[verifier::rlimit(40)]
pub proof fn law_rmw16_imm_reg(m: Machine, name: &'static str, r1: u32, imm: u32)
    requires
        m.wf(),
        r1 < 8,
    ensures
        run(m, rmw16_imm_reg_code(name, r1, imm)) == Some(stored_result(m, name, seq![reg16(m, r1), imm], r1, 16)),
{
    reveal(exec_call);
    broadcast use lemma_push_drop;
    lemma_constants(imm);
    reveal_with_fuel(run_from, 5);
}

/// 16-bit shifts and rotates of a register by an immediate: the count is its low five bits.
#[verifier::rlimit(40)]
pub proof fn law_rmw16_shift_reg(m: Machine, name: &'static str, r1: u32, imm: u32)
    requires
        m.wf(),
        r1 < 8,
    ensures
        run(m, rmw16_shift_reg_code(name, r1, imm)) == Some(stored_result(m, name, seq![reg16(m, r1), imm & 31], r1, 16)),
{
    reveal(exec_call);
    broadcast use lemma_push_drop;
    lemma_constants(imm);
    reveal_with_fuel(run_from, 5);
}

/// 16-bit double shifts by CL (`shld`, `shrd`) between registers: the helper gets `r1`,
/// `r2` and the low five bits of CL; `r1` gets the result.
#[verifier::rlimit(40)]
pub proof fn law_rmw16_reg_cl_reg(m: Machine, name: &'static str, r1: u32, r2: u32)
    requires
        m.wf(),
        r1 < 8,
        r2 < 8,
    ensures
        run(m, rmw16_reg_cl_reg_code(name, r1, r2)) == Some(stored_result(m, name, seq![reg16(m, r1), reg16(m, r2), cl_count(m)], r1, 16)),
{
    reveal(exec_call);
    broadcast use lemma_push_drop;
    lemma_constants(0);
    reveal_with_fuel(run_from, 8);
}

/// 16-bit double shifts by an immediate between registers.
#[verifier::rlimit(40)]
pub proof fn law_rmw16_reg_shift_reg(m: Machine, name: &'static str, r1: u32, r2: u32, imm: u32)
    requires
        m.wf(),
        r1 < 8,
        r2 < 8,
    ensures
        run(m, rmw16_reg_shift_reg_code(name, r1, r2, imm)) == Some(stored_result(m, name, seq![reg16(m, r1), reg16(m, r2), imm & 31], r1, 16)),
{
    reveal(exec_call);
    broadcast use lemma_push_drop;
    lemma_constants(imm);
    reveal_with_fuel(run_from, 6);
}

/// 32-bit shifts and rotates by one of a register.
#[verifier::rlimit(40)]
pub proof fn law_rmw32_one_reg(m: Machine, name: &'static str, r1: u32)
    requires
        m.wf(),
        r1 < 8,
    ensures
        run(m, rmw32_one_reg_code(name, r1)) == Some(stored_result(m, name, seq![m.regs[r1 as int], 1u32], r1, 32)),
{
    reveal(exec_call);
    broadcast use lemma_push_drop;
    lemma_constants(0);
    reveal_with_fuel(run_from, 5);
}

/// 32-bit shifts and rotates by CL of a register (group `D3`): the helper gets the register
/// and the low five bits of CL.
#[verifier::rlimit(40)]
pub proof fn law_rmw32_cl_reg(m: Machine, name: &'static str, r1: u32)
    requires
        m.wf(),
        r1 < 8,
    ensures
        run(m, rmw32_cl_reg_code(name, r1)) == Some(stored_result(m, name, seq![m.regs[r1 as int], cl_count(m)], r1, 32)),
{
    reveal(exec_call);
    broadcast use lemma_push_drop;
    lemma_constants(0);
    reveal_with_fuel(run_from, 7);
}

/// 32-bit operations of a register with an immediate through a helper.
#[verifier::rlimit(40)]
pub proof fn law_rmw32_imm_reg(m: Machine, name: &'static str, r1: u32, imm: u32)
    requires
        m.wf(),
        r1 < 8,
    ensures
        run(m, rmw32_imm_reg_code(name, r1, imm)) == Some(stored_result(m, name, seq![m.regs[r1 as int], imm], r1, 32)),
{
    reveal(exec_call);
    broadcast use lemma_push_drop;
    lemma_constants(imm);
    reveal_with_fuel(run_from, 5);
}

/// 32-bit shifts and rotates of a register by an immediate: the count is its low five bits.
#[verifier::rlimit(40)]
pub proof fn law_rmw32_shift_reg(m: Machine, name: &'static str, r1: u32, imm: u32)
    requires
        m.wf(),
        r1 < 8,
    ensures
        run(m, rmw32_shift_reg_code(name, r1, imm)) == Some(stored_result(m, name, seq![m.regs[r1 as int], imm & 31], r1, 32)),
{
    reveal(exec_call);
    broadcast use lemma_push_drop;
    lemma_constants(imm);
    reveal_with_fuel(run_from, 5);
}

/// 32-bit double shifts by CL between registers: the helper gets `r1`, `r2` and the low
/// five bits of CL.
#[verifier::rlimit(40)]
pub proof fn law_rmw32_reg_cl_reg(m: Machine, name: &'static str, r1: u32, r2: u32)
    requires
        m.wf(),
        r1 < 8,
        r2 < 8,
    ensures
        run(m, rmw32_reg_cl_reg_code(name, r1, r2)) == Some(stored_result(m, name, seq![m.regs[r1 as int], m.regs[r2 as int], cl_count(m)], r1, 32)),
{
    reveal(exec_call);
    broadcast use lemma_push_drop;
    lemma_constants(0);
    reveal_with_fuel(run_from, 8);
}

/// 32-bit double shifts by an immediate between registers.
#[verifier::rlimit(40)]
pub proof fn law_rmw32_reg_shift_reg(m: Machine, name: &'static str, r1: u32, r2: u32, imm: u32)
    requires
        m.wf(),
        r1 < 8,
        r2 < 8,
    ensures
        run(m, rmw32_reg_shift_reg_code(name, r1, r2, imm)) == Some(stored_result(m, name, seq![m.regs[r1 as int], m.regs[r2 as int], imm & 31], r1, 32)),
{
    reveal(exec_call);
    broadcast use lemma_push_drop;
    lemma_constants(imm);
    reveal_with_fuel(run_from, 6);
}

/// `setcc` on a register (opcodes `0F 90` to `0F 9F`): the 8-bit register becomes 1 when
/// the condition function returns nonzero and 0 otherwise; the rest of its 32-bit register
/// is kept.
pub proof fn law_setcc_reg(m: Machine, condition: u32, r1: u32)
    requires
        m.wf(),
        r1 < 8,
    ensures
        run(m, setcc_reg_code(condition, r1)) == Some(
            with_reg8(m, r1, if m.condition(condition) != 0 {
                1u32
            } else {
                0u32
            }),
        ),
{
    reveal(exec_call);
    broadcast use lemma_push_drop;
    lemma_constants(0);
    reveal_with_fuel(run_from, 5);
}

/// `pop` into a 32-bit register (opcodes `58` to `5F`): the register becomes the whole
/// doubleword at the top of the stack and the stack pointer advances by 4 (a pop into ESP
/// leaves the value popped); when the doubleword is not accessible the read faults and
/// nothing else changes.
pub proof fn law_pop32_reg(m: Machine, reg: u32)
    requires
        m.wf(),
        reg < 8,
    ensures
        run(m, pop32_reg_jit_code(reg)) == Some(
            match read32(m.memory, m.stack_top_address()) {
                Some(v) => with_reg32(m.adjust_stack(4), reg, v),
                None => m.fault(),
            },
        ),
{
    reveal(exec_call);
    broadcast use lemma_push_drop;
    reveal_with_fuel(run_from, 3);
}

/// `pop` into a 16-bit register: the low half of the register becomes the word at the
/// top of the stack and the stack pointer advances by 2.
pub proof fn law_pop16_reg(m: Machine, reg: u32)
    requires
        m.wf(),
        reg < 8,
    ensures
        run(m, pop16_reg_jit_code(reg)) == Some(
            match read16(m.memory, m.stack_top_address()) {
                Some(v) => with_reg16(m.adjust_stack(2), reg, v),
                None => m.fault(),
            },
        ),
{
    reveal(exec_access);
    broadcast use lemma_push_drop;
    reveal_with_fuel(run_from, 3);
}

/// Two pops into 32-bit registers read consecutive doublewords of the stack, on a 32-bit
/// stack.
pub proof fn law_pop32_twice(m: Machine, r1: u32, r2: u32)
    requires
        m.wf(),
        r1 < 8,
        r2 < 8,
        r1 != ESP,
        m.env.stack_size_32,
        read32(m.memory, m.stack_top_address()) is Some,
    ensures
        run(m, pop32_reg_jit_code(r1) + pop32_reg_jit_code(r2)) == Some(
            match read32(m.memory, m.adjust_stack(4).stack_top_address()) {
                Some(v) => with_reg32(with_reg32(m.adjust_stack(4), r1, read32(m.memory, m.stack_top_address())->0).adjust_stack(4), r2, v),
                None => with_reg32(m.adjust_stack(4), r1, read32(m.memory, m.stack_top_address())->0).fault(),
            },
        ),
{
    crate::semantics::lemma_run_concat(m, pop32_reg_jit_code(r1), pop32_reg_jit_code(r2));
    law_pop32_reg(m, r1);
    let x = with_reg32(m.adjust_stack(4), r1, read32(m.memory, m.stack_top_address())->0);
    law_pop32_reg(x, r2);
    assert(x.stack_top_address() == m.adjust_stack(4).stack_top_address());
}

} // verus!
