//! What the generated code computes on guest memory: the read-modify-write forms of the
//! arithmetic and logic operations, and the 32-bit moves and exchanges with memory.

use vstd::prelude::*;
use crate::op::{Op, WasmLocal, LocalOrImmedate, BitSize, ImmKind};
use crate::alu::{Alu32, gen_alu32_code, gen_compare_code};
use crate::consts::{OPSIZE_32, EBX, BX, AL, DS, ESP};
use crate::ops_alu::instr32_3B_mem_jit_code;
use crate::templates::{rmw32_reg_mem_code, rmw32_alu_imm_mem_code, write_reg32_mem_code, read32_mem_code};
use crate::ops_control::{instr32_C7_0_mem_jit_code, instr_D7_jit_code};
use crate::ops_group::{
    instr32_89_mem_jit_code, instr32_8B_mem_jit_code, instr32_87_mem_jit_code, instr_8A_mem_jit_code,
    instr16_8B_mem_jit_code, instr16_8C_mem_jit_code, instr32_8C_mem_jit_code, instr16_8F_0_mem_jit_code,
};
use crate::semantics::{
    Machine, Value, run, run_from, exec_access, read8, read16, read32, write8, write16, write32, key_index,
    lemma_run_concat, lemma_key_index_found, lemma_key_index_same_keys, wrapping_add, wrapping_sub,
    set_reg8, reg8, with_low16, shift_right_signed, segment_offset, effective_segment,
};
use crate::laws::{
    inline_alu32, alu32_value, after_alu32, after_alu32_at, after_alu32_mem, after_compare32_values, law_alu32,
    law_compare32,
};

verus! {

/// Reading a byte after writing one: the address written gives the low 8 bits of the value
/// written, every other address what it held before.
pub proof fn law_read8_after_write8(memory: Seq<(u32, u32)>, a: u32, b: u32, v: u32)
    ensures
        read8(write8(memory, a, v), b) == (if a == b {
            Some(v & 0xFF)
        } else {
            read8(memory, b)
        }),
{
    let n = memory.len();
    lemma_key_index_found(memory, a, n);
    lemma_key_index_found(memory, b, n);
    let w = write8(memory, a, v);
    assert forall|k: int| 0 <= k < n implies #[trigger] w[k].0 == memory[k].0 by {}
    lemma_key_index_same_keys(w, memory, b, n);
    assert((v & 0xFF) & 0xFF == v & 0xFF) by (bit_vector);
}

/// A byte at `b` after writing a doubleword at `a`: one of the four bytes of the value,
/// little-endian, or what the byte held before.
pub proof fn law_read8_after_write32(memory: Seq<(u32, u32)>, a: u32, b: u32, v: u32)
    ensures
        read8(write32(memory, a, v), b) == (if b == a {
            Some(v & 0xFF)
        } else if b == wrapping_add(a, 1) {
            Some((v >> 8u32) & 0xFF)
        } else if b == wrapping_add(a, 2) {
            Some((v >> 16u32) & 0xFF)
        } else if b == wrapping_add(a, 3) {
            Some((v >> 24u32) & 0xFF)
        } else {
            read8(memory, b)
        }),
{
    reveal(write32);
    let w1 = write8(memory, a, v);
    let w2 = write8(w1, wrapping_add(a, 1), v >> 8u32);
    let w3 = write8(w2, wrapping_add(a, 2), v >> 16u32);
    law_read8_after_write8(memory, a, b, v);
    law_read8_after_write8(w1, wrapping_add(a, 1), b, v >> 8u32);
    law_read8_after_write8(w2, wrapping_add(a, 2), b, v >> 16u32);
    law_read8_after_write8(w3, wrapping_add(a, 3), b, v >> 24u32);
}

/// A byte at `b` after writing a word at `a`: one of the two bytes of the value,
/// little-endian, or what the byte held before.
pub proof fn law_read8_after_write16(memory: Seq<(u32, u32)>, a: u32, b: u32, v: u32)
    ensures
        read8(write16(memory, a, v), b) == (if b == a {
            Some(v & 0xFF)
        } else if b == wrapping_add(a, 1) {
            Some((v >> 8u32) & 0xFF)
        } else {
            read8(memory, b)
        }),
{
    reveal(write16);
    law_read8_after_write8(memory, a, b, v);
    law_read8_after_write8(write8(memory, a, v), wrapping_add(a, 1), b, v >> 8u32);
}

/// Reading a doubleword where one was written gives the value written.
pub proof fn law_read_after_write32(memory: Seq<(u32, u32)>, a: u32, v: u32)
    ensures
        read32(write32(memory, a, v), a) == Some(v),
{
    reveal(read32);
    let w = write32(memory, a, v);
    law_read8_after_write32(memory, a, a, v);
    law_read8_after_write32(memory, a, wrapping_add(a, 1), v);
    law_read8_after_write32(memory, a, wrapping_add(a, 2), v);
    law_read8_after_write32(memory, a, wrapping_add(a, 3), v);
    assert((v & 0xFF) | (((v >> 8u32) & 0xFF) << 8u32) | (((v >> 16u32) & 0xFF) << 16u32) | (((v >> 24u32) & 0xFF) << 24u32) == v) by (bit_vector);
}

/// Reading a word where one was written gives the low 16 bits of the value written.
pub proof fn law_read_after_write16(memory: Seq<(u32, u32)>, a: u32, v: u32)
    ensures
        read16(write16(memory, a, v), a) == Some(v & 0xFFFF),
{
    reveal(read16);
    law_read8_after_write16(memory, a, a, v);
    law_read8_after_write16(memory, a, wrapping_add(a, 1), v);
    assert((v & 0xFF) | (((v >> 8u32) & 0xFF) << 8u32) == v & 0xFFFF) by (bit_vector);
}

/// Writing a doubleword leaves every doubleword whose bytes it does not touch.
pub proof fn law_read32_after_write32_elsewhere(memory: Seq<(u32, u32)>, a: u32, b: u32, v: u32)
    requires
        wrapping_sub(b, a) >= 4,
        wrapping_sub(a, b) >= 4,
    ensures
        read32(write32(memory, a, v), b) == read32(memory, b),
{
    reveal(read32);
    law_read8_after_write32(memory, a, b, v);
    law_read8_after_write32(memory, a, wrapping_add(b, 1), v);
    law_read8_after_write32(memory, a, wrapping_add(b, 2), v);
    law_read8_after_write32(memory, a, wrapping_add(b, 3), v);
}

/// The machine inside a read-modify-write access of the doubleword at the operand
/// address: temporary `n` holds the address, temporary `n + 1` the value read.
pub open spec fn rmw32_entered(m: Machine, n: u32) -> Machine {
    Machine {
        temps: m.temps.push((n, m.env.operand_address)).push(((n + 1) as u32, read32(m.memory, m.env.operand_address)->0)),
        accesses: m.accesses.push(m.env.operand_address),
        ..m
    }
}

/// Temporaries `n` and `n + 1` can be allocated.
pub open spec fn two_free_temps(m: Machine, n: u32) -> bool {
    &&& n < 0xFFFF_FFFF
    &&& key_index(m.temps, n, m.temps.len()) < 0
    &&& key_index(m.temps, (n + 1) as u32, m.temps.len()) < 0
}

proof fn lemma_second_temp_free(m: Machine, n: u32, a: u32)
    requires
        two_free_temps(m, n),
    ensures
        key_index(m.temps.push((n, a)), (n + 1) as u32, m.temps.len() + 1) < 0,
{
    let t = m.temps.push((n, a));
    assert forall|k: int| 0 <= k < m.temps.len() implies #[trigger] t[k].0 == m.temps[k].0 by {}
    lemma_key_index_same_keys(t, m.temps, (n + 1) as u32, m.temps.len());
}

#[verifier::rlimit(30)]
proof fn lemma_rmw32_enter(m: Machine, modrm_byte: u8, n: u32)
    requires
        m.wf(),
        two_free_temps(m, n),
        read32(m.memory, m.env.operand_address) is Some,
    ensures
        run(
            m,
            seq![Op::ModrmResolve(modrm_byte), Op::SetNewLocal(n), Op::SafeReadWriteBegin(BitSize::Dword, WasmLocal::Temp(n)), Op::SetNewLocal((n + 1) as u32)],
        ) == Some(rmw32_entered(m, n)),
{
    reveal(exec_access);
    let v = read32(m.memory, m.env.operand_address)->0;
    lemma_second_temp_free(m, n, m.env.operand_address);
    reveal_with_fuel(run_from, 5);
    assert(m.stack.push(Value::Word(m.env.operand_address)).drop_last().push(Value::Word(v)).drop_last() =~= m.stack);
}

#[verifier::rlimit(30)]
proof fn lemma_rmw32_enter_imm(m: Machine, kind: ImmKind, modrm_byte: u8, n: u32)
    requires
        m.wf(),
        two_free_temps(m, n),
        read32(m.memory, m.env.operand_address) is Some,
        m.immediates.len() > 0,
    ensures
        run(
            m,
            seq![Op::ModrmResolve(modrm_byte), Op::SetNewLocal(n), Op::ReadImm(kind), Op::SafeReadWriteBegin(BitSize::Dword, WasmLocal::Temp(n)), Op::SetNewLocal((n + 1) as u32)],
        ) == Some(Machine { pending: m.immediates[0], immediates: m.immediates.drop_first(), ..rmw32_entered(m, n) }),
{
    reveal(exec_access);
    let v = read32(m.memory, m.env.operand_address)->0;
    lemma_second_temp_free(m, n, m.env.operand_address);
    reveal_with_fuel(run_from, 6);
    assert(m.stack.push(Value::Word(m.env.operand_address)).drop_last().push(Value::Word(v)).drop_last() =~= m.stack);
}

#[verifier::rlimit(30)]
proof fn lemma_rmw32_leave(x: Machine, m: Machine, n: u32, r: u32)
    requires
        x.wf(),
        n < 0xFFFF_FFFF,
        x.temps == m.temps.push((n, m.env.operand_address)).push(((n + 1) as u32, r)),
        x.accesses == m.accesses.push(m.env.operand_address),
    ensures
        run(
            x,
            seq![Op::GetLocal(WasmLocal::Temp((n + 1) as u32)), Op::FreeLocal((n + 1) as u32), Op::SafeReadWriteEnd, Op::FreeLocal(n)],
        ) == Some(Machine { temps: m.temps, accesses: m.accesses, memory: write32(x.memory, m.env.operand_address, r), ..x }),
{
    reveal(exec_access);
    reveal_with_fuel(run_from, 5);
    assert(x.temps.remove(m.temps.len() + 1int) =~= m.temps.push((n, m.env.operand_address)));
    assert(m.temps.push((n, m.env.operand_address)).remove(m.temps.len() as int) =~= m.temps);
    assert(x.stack.push(Value::Word(r)).drop_last() =~= x.stack);
    assert(x.accesses.drop_last() =~= m.accesses);
}

/// The memory forms of `add`, `or`, `and`, `sub` and `xor` with 32-bit operands (opcodes
/// `01`, `09`, `21`, `29`, `31`): the doubleword at the operand address becomes its
/// result with register `r`, when that doubleword is accessible.
#[verifier::rlimit(40)]
pub proof fn law_rmw32_reg_mem(m: Machine, op: Alu32, modrm_byte: u8, r: u32, n: u32)
    requires
        m.wf(),
        r < 8,
        inline_alu32(op),
        two_free_temps(m, n),
        read32(m.memory, m.env.operand_address) is Some,
    ensures
        run(m, rmw32_reg_mem_code(op, modrm_byte, r, n)) == Some(after_alu32_mem(m, op, m.regs[r as int])),
{
    let v = read32(m.memory, m.env.operand_address)->0;
    let a = seq![Op::ModrmResolve(modrm_byte), Op::SetNewLocal(n), Op::SafeReadWriteBegin(BitSize::Dword, WasmLocal::Temp(n)), Op::SetNewLocal((n + 1) as u32)];
    let b = gen_alu32_code(op, WasmLocal::Temp((n + 1) as u32), LocalOrImmedate::WasmLocal(WasmLocal::Register(r)));
    let c = seq![Op::GetLocal(WasmLocal::Temp((n + 1) as u32)), Op::FreeLocal((n + 1) as u32), Op::SafeReadWriteEnd, Op::FreeLocal(n)];
    assert(rmw32_reg_mem_code(op, modrm_byte, r, n) =~= a + b + c);
    lemma_run_concat(m, a + b, c);
    lemma_run_concat(m, a, b);
    lemma_rmw32_enter(m, modrm_byte, n);
    let m1 = rmw32_entered(m, n);
    let d = WasmLocal::Temp((n + 1) as u32);
    assert(m1.local(d) == Some(v));
    law_alu32(m1, op, d, LocalOrImmedate::WasmLocal(WasmLocal::Register(r)));
    let res = alu32_value(op, v, m.regs[r as int]);
    let m2 = after_alu32_at(m1, op, d, m.regs[r as int]);
    assert(m2.temps =~= m.temps.push((n, m.env.operand_address)).push(((n + 1) as u32, res)));
    lemma_rmw32_leave(m2, m, n, res);
}

/// Groups `81` and `83` on a doubleword in memory (`add`, `or`, `and`, `sub`, `xor`): the
/// doubleword at the operand address becomes its result with the immediate that follows,
/// which is consumed, when that doubleword is accessible.
#[verifier::rlimit(40)]
pub proof fn law_alu32_imm_mem(m: Machine, op: Alu32, kind: ImmKind, modrm_byte: u8, n: u32)
    requires
        m.wf(),
        inline_alu32(op),
        two_free_temps(m, n),
        read32(m.memory, m.env.operand_address) is Some,
        m.immediates.len() > 0,
    ensures
        run(m, rmw32_alu_imm_mem_code(op, kind, modrm_byte, n)) == Some(
            Machine {
                pending: m.immediates[0],
                immediates: m.immediates.drop_first(),
                ..after_alu32_mem(m, op, m.immediates[0])
            },
        ),
{
    let v = read32(m.memory, m.env.operand_address)->0;
    let imm = m.immediates[0];
    let a = seq![Op::ModrmResolve(modrm_byte), Op::SetNewLocal(n), Op::ReadImm(kind), Op::SafeReadWriteBegin(BitSize::Dword, WasmLocal::Temp(n)), Op::SetNewLocal((n + 1) as u32)];
    let b = gen_alu32_code(op, WasmLocal::Temp((n + 1) as u32), LocalOrImmedate::ReadImmediate);
    let c = seq![Op::GetLocal(WasmLocal::Temp((n + 1) as u32)), Op::FreeLocal((n + 1) as u32), Op::SafeReadWriteEnd, Op::FreeLocal(n)];
    assert(rmw32_alu_imm_mem_code(op, kind, modrm_byte, n) =~= a + b + c);
    lemma_run_concat(m, a + b, c);
    lemma_run_concat(m, a, b);
    lemma_rmw32_enter_imm(m, kind, modrm_byte, n);
    let m1 = Machine { pending: imm, immediates: m.immediates.drop_first(), ..rmw32_entered(m, n) };
    let d = WasmLocal::Temp((n + 1) as u32);
    assert(m1.local(d) == Some(v));
    law_alu32(m1, op, d, LocalOrImmedate::ReadImmediate);
    let res = alu32_value(op, v, imm);
    let m2 = after_alu32_at(m1, op, d, imm);
    assert(m2.temps =~= m.temps.push((n, m.env.operand_address)).push(((n + 1) as u32, res)));
    lemma_rmw32_leave(m2, m, n, res);
}

/// The memory forms of opcodes `03`, `0B`, `23`, `2B`, `33` with 32-bit operands: register
/// `r` becomes its result with the doubleword at the operand address, when that doubleword
/// is accessible; memory is unchanged.
#[verifier::rlimit(40)]
pub proof fn law_write_reg32_mem(m: Machine, op: Alu32, modrm_byte: u8, r: u32, n: u32)
    requires
        m.wf(),
        r < 8,
        inline_alu32(op),
        key_index(m.temps, n, m.temps.len()) < 0,
        read32(m.memory, m.env.operand_address) is Some,
    ensures
        run(m, write_reg32_mem_code(op, modrm_byte, r, n)) == Some(
            after_alu32(m, op, r, read32(m.memory, m.env.operand_address)->0),
        ),
{
    reveal(exec_access);
    let v = read32(m.memory, m.env.operand_address)->0;
    let a = seq![Op::ModrmResolveSafeRead32(modrm_byte), Op::SetNewLocal(n)];
    let b = gen_alu32_code(op, WasmLocal::Register(r), LocalOrImmedate::WasmLocal(WasmLocal::Temp(n)));
    let c = seq![Op::FreeLocal(n)];
    assert(write_reg32_mem_code(op, modrm_byte, r, n) =~= a + b + c);
    lemma_run_concat(m, a + b, c);
    lemma_run_concat(m, a, b);
    let m1 = Machine { temps: m.temps.push((n, v)), ..m };
    assert(m.stack.push(Value::Word(v)).drop_last() =~= m.stack);
    reveal_with_fuel(run_from, 3);
    assert(run(m, a) == Some(m1));
    assert(m1.local(WasmLocal::Temp(n)) == Some(v));
    law_alu32(m1, op, WasmLocal::Register(r), LocalOrImmedate::WasmLocal(WasmLocal::Temp(n)));
    assert(m.temps.push((n, v)).remove(m.temps.len() as int) =~= m.temps);
}

/// `mov` of register `r` to memory with 32-bit operands (opcode `89`): the doubleword at
/// the operand address becomes the register, when it is accessible; otherwise the write
/// faults and memory and registers are unchanged.
#[verifier::rlimit(30)]
pub proof fn law_mov32_store(m: Machine, modrm_byte: u8, r: u32, n: u32)
    requires
        m.wf(),
        r < 8,
        key_index(m.temps, n, m.temps.len()) < 0,
    ensures
        run(m, instr32_89_mem_jit_code(modrm_byte, r, n)) == Some(
            if read32(m.memory, m.env.operand_address) is Some {
                Machine { memory: write32(m.memory, m.env.operand_address, m.regs[r as int]), ..m }
            } else {
                Machine { faulted: true, temps: m.temps.push((n, m.env.operand_address)), ..m }
            },
        ),
{
    reveal(exec_access);
    reveal_with_fuel(run_from, 5);
    assert(m.stack.push(Value::Word(m.env.operand_address)).drop_last() =~= m.stack);
    assert(m.temps.push((n, m.env.operand_address)).remove(m.temps.len() as int) =~= m.temps);
}

/// `mov` from memory to register `r` with 32-bit operands (opcode `8B`): the register
/// becomes the doubleword at the operand address, when it is accessible.
pub proof fn law_mov32_load(m: Machine, modrm_byte: u8, r: u32)
    requires
        m.wf(),
        r < 8,
        read32(m.memory, m.env.operand_address) is Some,
    ensures
        run(m, instr32_8B_mem_jit_code(modrm_byte, r)) == Some(
            Machine { regs: m.regs.update(r as int, read32(m.memory, m.env.operand_address)->0), ..m },
        ),
{
    reveal(exec_access);
    reveal_with_fuel(run_from, 3);
    assert(m.stack.push(Value::Word(read32(m.memory, m.env.operand_address)->0)).drop_last() =~= m.stack);
}

/// A doubleword stored with `mov r/m32, r32` is read back by `mov r32, r/m32` at the same
/// operand address: the second register becomes the first.
pub proof fn law_mov32_store_then_load(m: Machine, modrm_store: u8, modrm_load: u8, r1: u32, r2: u32, n: u32)
    requires
        m.wf(),
        r1 < 8,
        r2 < 8,
        key_index(m.temps, n, m.temps.len()) < 0,
        read32(m.memory, m.env.operand_address) is Some,
    ensures
        run(m, instr32_89_mem_jit_code(modrm_store, r1, n) + instr32_8B_mem_jit_code(modrm_load, r2)) == Some(
            Machine {
                regs: m.regs.update(r2 as int, m.regs[r1 as int]),
                memory: write32(m.memory, m.env.operand_address, m.regs[r1 as int]),
                ..m
            },
        ),
{
    lemma_run_concat(m, instr32_89_mem_jit_code(modrm_store, r1, n), instr32_8B_mem_jit_code(modrm_load, r2));
    law_mov32_store(m, modrm_store, r1, n);
    let x = Machine { memory: write32(m.memory, m.env.operand_address, m.regs[r1 as int]), ..m };
    law_read_after_write32(m.memory, m.env.operand_address, m.regs[r1 as int]);
    law_mov32_load(x, modrm_load, r2);
}

/// `mov` of the immediate that follows to memory with 32-bit operands (opcode `C7`): the
/// doubleword at the operand address becomes the immediate, which is consumed, when the
/// doubleword is accessible.
#[verifier::rlimit(40)]
pub proof fn law_mov32_imm_mem(m: Machine, modrm_byte: u8, n: u32)
    requires
        m.wf(),
        two_free_temps(m, n),
        read32(m.memory, m.env.operand_address) is Some,
        m.immediates.len() > 0,
    ensures
        run(m, instr32_C7_0_mem_jit_code(modrm_byte, n)) == Some(
            Machine {
                memory: write32(m.memory, m.env.operand_address, m.immediates[0]),
                pending: m.immediates[0],
                immediates: m.immediates.drop_first(),
                ..m
            },
        ),
{
    reveal(exec_access);
    let imm = m.immediates[0];
    lemma_second_temp_free(m, n, m.env.operand_address);
    assert((((imm as i32) & -1i32) >> 0u32) as u32 == imm) by (bit_vector);
    let t = m.temps.push((n, m.env.operand_address)).push(((n + 1) as u32, imm));
    assert(key_index(t, n, t.len()) == m.temps.len()) by {
        reveal_with_fuel(key_index, 2);
    }
    reveal_with_fuel(run_from, 9);
    assert(t.remove(m.temps.len() as int) =~= m.temps.push(((n + 1) as u32, imm)));
    assert(m.temps.push(((n + 1) as u32, imm)).remove(m.temps.len() as int) =~= m.temps);
    assert(m.stack.push(Value::Word(m.env.operand_address)).drop_last().push(Value::Word(imm)).drop_last() =~= m.stack);
}

/// `xchg` of register `r` with memory at 32 bits (opcode `87`): the register and the
/// doubleword at the operand address swap, when the doubleword is accessible.
#[verifier::rlimit(60)]
pub proof fn law_xchg32_mem(m: Machine, modrm_byte: u8, r: u32, n: u32)
    requires
        m.wf(),
        r < 8,
        two_free_temps(m, n),
        read32(m.memory, m.env.operand_address) is Some,
    ensures
        run(m, instr32_87_mem_jit_code(modrm_byte, r, n)) == Some(
            Machine {
                regs: m.regs.update(r as int, read32(m.memory, m.env.operand_address)->0),
                memory: write32(m.memory, m.env.operand_address, m.regs[r as int]),
                ..m
            },
        ),
{
    reveal(exec_access);
    let v = read32(m.memory, m.env.operand_address)->0;
    let a = seq![Op::ModrmResolve(modrm_byte), Op::SetNewLocal(n), Op::SafeReadWriteBegin(BitSize::Dword, WasmLocal::Temp(n))];
    let b = seq![Op::GetReg32(r), Op::SetNewLocal((n + 1) as u32), Op::SetReg32(r)];
    let c = seq![Op::GetLocal(WasmLocal::Temp((n + 1) as u32)), Op::FreeLocal((n + 1) as u32), Op::SafeReadWriteEnd, Op::FreeLocal(n)];
    assert(instr32_87_mem_jit_code(modrm_byte, r, n) =~= a + b + c);
    lemma_run_concat(m, a + b, c);
    lemma_run_concat(m, a, b);
    lemma_second_temp_free(m, n, m.env.operand_address);
    let m1 = Machine {
        temps: m.temps.push((n, m.env.operand_address)),
        accesses: m.accesses.push(m.env.operand_address),
        stack: m.stack.push(Value::Word(v)),
        ..m
    };
    assert(m.stack.push(Value::Word(m.env.operand_address)).drop_last().push(Value::Word(v)) =~= m1.stack);
    reveal_with_fuel(run_from, 4);
    assert(run(m, a) == Some(m1));
    let m2 = Machine {
        temps: m.temps.push((n, m.env.operand_address)).push(((n + 1) as u32, m.regs[r as int])),
        accesses: m.accesses.push(m.env.operand_address),
        regs: m.regs.update(r as int, v),
        ..m
    };
    assert(m1.stack.push(Value::Word(m.regs[r as int])).drop_last().drop_last() =~= m.stack);
    assert(run(m1, b) == Some(m2));
    lemma_rmw32_leave(m2, m, n, m.regs[r as int]);
}

/// `cmp` and `test` of a doubleword in memory with register `r` (opcodes `39` and `85`)
/// record their result for the lazily computed flags, when the doubleword is accessible;
/// registers and memory are unchanged.
#[verifier::rlimit(40)]
pub proof fn law_compare32_mem(m: Machine, test: bool, modrm_byte: u8, r: u32, n: u32)
    requires
        m.wf(),
        r < 8,
        key_index(m.temps, n, m.temps.len()) < 0,
        read32(m.memory, m.env.operand_address) is Some,
    ensures
        run(m, read32_mem_code(test, modrm_byte, r, n)) == Some(
            after_compare32_values(m, test, read32(m.memory, m.env.operand_address)->0, m.regs[r as int]),
        ),
{
    reveal(exec_access);
    let v = read32(m.memory, m.env.operand_address)->0;
    let a = seq![Op::ModrmResolveSafeRead32(modrm_byte), Op::SetNewLocal(n)];
    let b = gen_compare_code(test, WasmLocal::Temp(n), LocalOrImmedate::WasmLocal(WasmLocal::Register(r)), OPSIZE_32);
    let c = seq![Op::FreeLocal(n)];
    assert(read32_mem_code(test, modrm_byte, r, n) =~= a + b + c);
    lemma_run_concat(m, a + b, c);
    lemma_run_concat(m, a, b);
    let m1 = Machine { temps: m.temps.push((n, v)), ..m };
    assert(m.stack.push(Value::Word(v)).drop_last() =~= m.stack);
    reveal_with_fuel(run_from, 3);
    assert(run(m, a) == Some(m1));
    assert(m1.local(WasmLocal::Temp(n)) == Some(v));
    law_compare32(m1, test, WasmLocal::Temp(n), LocalOrImmedate::WasmLocal(WasmLocal::Register(r)));
    assert(m.temps.push((n, v)).remove(m.temps.len() as int) =~= m.temps);
}

/// `cmp` of register `r` with a doubleword in memory (opcode `3B`) records the difference
/// for the lazily computed flags, when the doubleword is accessible; registers and memory
/// are unchanged.
#[verifier::rlimit(40)]
pub proof fn law_compare32_reg_mem(m: Machine, modrm_byte: u8, r: u32, n: u32)
    requires
        m.wf(),
        r < 8,
        key_index(m.temps, n, m.temps.len()) < 0,
        read32(m.memory, m.env.operand_address) is Some,
    ensures
        run(m, instr32_3B_mem_jit_code(modrm_byte, r, n)) == Some(
            after_compare32_values(m, false, m.regs[r as int], read32(m.memory, m.env.operand_address)->0),
        ),
{
    reveal(exec_access);
    let v = read32(m.memory, m.env.operand_address)->0;
    let a = seq![Op::ModrmResolveSafeRead32(modrm_byte), Op::SetNewLocal(n)];
    let b = gen_compare_code(false, WasmLocal::Register(r), LocalOrImmedate::WasmLocal(WasmLocal::Temp(n)), OPSIZE_32);
    let c = seq![Op::FreeLocal(n)];
    assert(instr32_3B_mem_jit_code(modrm_byte, r, n) =~= a + b + c);
    lemma_run_concat(m, a + b, c);
    lemma_run_concat(m, a, b);
    let m1 = Machine { temps: m.temps.push((n, v)), ..m };
    assert(m.stack.push(Value::Word(v)).drop_last() =~= m.stack);
    reveal_with_fuel(run_from, 3);
    assert(run(m, a) == Some(m1));
    assert(m1.local(WasmLocal::Temp(n)) == Some(v));
    law_compare32(m1, false, WasmLocal::Register(r), LocalOrImmedate::WasmLocal(WasmLocal::Temp(n)));
    assert(m.temps.push((n, v)).remove(m.temps.len() as int) =~= m.temps);
}

/// `mov` of a byte from memory to the 8-bit register `r` (opcode `8A`): the register
/// becomes the byte at the operand address and the other 24 bits of its 32-bit register
/// are kept; when the byte is not accessible the read faults and nothing else changes.
pub proof fn law_mov8_load(m: Machine, modrm_byte: u8, r: u32)
    requires
        m.wf(),
        r < 8,
    ensures
        run(m, instr_8A_mem_jit_code(modrm_byte, r)) == Some(
            match read8(m.memory, m.env.operand_address) {
                Some(v) => Machine { regs: set_reg8(m.regs, r, v), ..m },
                None => m.fault(),
            },
        ),
{
    reveal(exec_access);
    reveal_with_fuel(run_from, 3);
    if let Some(v) = read8(m.memory, m.env.operand_address) {
        assert(m.stack.push(Value::Word(v)).drop_last() =~= m.stack);
    }
}

/// `mov` of a word from memory to the 16-bit register `r` (opcode `8B` with 16-bit
/// operands): the low half of the register becomes the word at the operand address and
/// the high half is kept; when the word is not accessible the read faults and nothing
/// else changes.
pub proof fn law_mov16_load(m: Machine, modrm_byte: u8, r: u32)
    requires
        m.wf(),
        r < 8,
    ensures
        run(m, instr16_8B_mem_jit_code(modrm_byte, r)) == Some(
            match read16(m.memory, m.env.operand_address) {
                Some(v) => Machine { regs: m.regs.update(r as int, with_low16(m.regs[r as int], v)), ..m },
                None => m.fault(),
            },
        ),
{
    reveal(exec_access);
    reveal_with_fuel(run_from, 3);
    if let Some(v) = read16(m.memory, m.env.operand_address) {
        assert(m.stack.push(Value::Word(v)).drop_last() =~= m.stack);
    }
}

/// The machine after `mov r/m16, sreg` (opcode `8C`) with a memory operand: the word at
/// the operand address becomes segment selector `r`; when the word is not accessible the
/// write faults, and memory, registers and selectors are unchanged.
pub open spec fn after_store_sreg(m: Machine, r: u32, n: u32) -> Machine {
    if read16(m.memory, m.env.operand_address) is Some {
        Machine { memory: write16(m.memory, m.env.operand_address, m.env.sregs[r as int]), ..m }
    } else {
        Machine {
            faulted: true,
            temps: m.temps.push((n, m.env.operand_address)).push(((n + 1) as u32, m.env.sregs[r as int])),
            ..m
        }
    }
}

proof fn lemma_store_sreg(m: Machine, modrm_byte: u8, r: u32, n: u32)
    requires
        m.wf(),
        r < 6,
        two_free_temps(m, n),
    ensures
        run(
            m,
            seq![Op::ModrmResolve(modrm_byte), Op::SetNewLocal(n), Op::GetSreg(r), Op::SetNewLocal((n + 1) as u32), Op::SafeWrite16(WasmLocal::Temp(n), WasmLocal::Temp((n + 1) as u32)), Op::FreeLocal((n + 1) as u32), Op::FreeLocal(n)],
        ) == Some(after_store_sreg(m, r, n)),
{
    reveal(exec_access);
    lemma_second_temp_free(m, n, m.env.operand_address);
    let t = m.temps.push((n, m.env.operand_address)).push(((n + 1) as u32, m.env.sregs[r as int]));
    assert(key_index(t, n, t.len()) == m.temps.len()) by {
        reveal_with_fuel(key_index, 2);
    }
    reveal_with_fuel(run_from, 8);
    assert(t.remove(m.temps.len() + 1int) =~= m.temps.push((n, m.env.operand_address)));
    assert(m.temps.push((n, m.env.operand_address)).remove(m.temps.len() as int) =~= m.temps);
    assert(m.stack.push(Value::Word(m.env.operand_address)).drop_last().push(Value::Word(m.env.sregs[r as int])).drop_last() =~= m.stack);
}

/// `mov m16, sreg` (opcode `8C` with 16-bit operands) for the six segment registers.
pub proof fn law_store_sreg16(m: Machine, modrm_byte: u8, r: u32, n: u32)
    requires
        m.wf(),
        r < 6,
        two_free_temps(m, n),
    ensures
        run(m, instr16_8C_mem_jit_code(modrm_byte, r, n)) == Some(after_store_sreg(m, r, n)),
{
    lemma_store_sreg(m, modrm_byte, r, n);
    assert(instr16_8C_mem_jit_code(modrm_byte, r, n) =~= seq![Op::ModrmResolve(modrm_byte), Op::SetNewLocal(n), Op::GetSreg(r), Op::SetNewLocal((n + 1) as u32), Op::SafeWrite16(WasmLocal::Temp(n), WasmLocal::Temp((n + 1) as u32)), Op::FreeLocal((n + 1) as u32), Op::FreeLocal(n)]);
}

/// `mov m16, sreg` with 32-bit operand size (opcode `8C`): a memory operand is written at
/// 16 bits as well.
pub proof fn law_store_sreg32(m: Machine, modrm_byte: u8, r: u32, n: u32)
    requires
        m.wf(),
        r < 6,
        two_free_temps(m, n),
    ensures
        run(m, instr32_8C_mem_jit_code(modrm_byte, r, n)) == Some(after_store_sreg(m, r, n)),
{
    lemma_store_sreg(m, modrm_byte, r, n);
    assert(instr32_8C_mem_jit_code(modrm_byte, r, n) =~= seq![Op::ModrmResolve(modrm_byte), Op::SetNewLocal(n), Op::GetSreg(r), Op::SetNewLocal((n + 1) as u32), Op::SafeWrite16(WasmLocal::Temp(n), WasmLocal::Temp((n + 1) as u32)), Op::FreeLocal((n + 1) as u32), Op::FreeLocal(n)]);
}

/// The address `xlat` reads: the offset of DS (or of the segment a prefix names) plus EBX
/// (BX for 16-bit addresses) plus AL, wrapped to 16 bits for 16-bit addresses.
pub open spec fn xlat_address(m: Machine, address_size_32: bool) -> u32 {
    let base = if address_size_32 {
        m.regs[EBX as int]
    } else {
        m.regs[EBX as int] & 0xFFFF
    };
    let offset = wrapping_add(base, reg8(m.regs, AL));
    wrapping_add(
        if address_size_32 {
            offset
        } else {
            offset & 0xFFFF
        },
        segment_offset(m.env.segment_offsets, effective_segment(m.env.segment_prefix, DS)),
    )
}

/// The machine after `xlat`: AL becomes the byte at [`xlat_address`] and the rest of EAX is
/// kept; when that byte is not accessible the read faults and the registers are unchanged.
pub open spec fn after_xlat(m: Machine, address_size_32: bool, n: u32) -> Machine {
    match read8(m.memory, xlat_address(m, address_size_32)) {
        Some(v) => Machine { regs: set_reg8(m.regs, AL, v), ..m },
        None => Machine { faulted: true, temps: m.temps.push((n, xlat_address(m, address_size_32))), ..m },
    }
}

/// After the address is computed and allocated, the byte read and AL written.
#[verifier::rlimit(60)]
proof fn lemma_xlat_read(m: Machine, address_size_32: bool, n: u32)
    requires
        m.wf(),
        key_index(m.temps, n, m.temps.len()) < 0,
    ensures
        run(
            m.push(xlat_address(m, address_size_32)),
            seq![Op::SetNewLocal(n), Op::SafeRead8(WasmLocal::Temp(n)), Op::FreeLocal(n), Op::SetReg8(AL)],
        ) == Some(after_xlat(m, address_size_32, n)),
{
    reveal(exec_access);
    let a = xlat_address(m, address_size_32);
    reveal_with_fuel(run_from, 5);
    assert(m.stack.push(Value::Word(a)).drop_last() =~= m.stack);
    assert(m.temps.push((n, a)).remove(m.temps.len() as int) =~= m.temps);
    if let Some(v) = read8(m.memory, a) {
        assert(m.stack.push(Value::Word(v)).drop_last() =~= m.stack);
    }
}

/// `xlat` (opcode `D7`) reads AL from the table at EBX (BX for 16-bit addresses) in DS,
/// or in the segment that a prefix names.
#[verifier::rlimit(80)]
pub proof fn law_xlat(m: Machine, address_size_32: bool, n: u32)
    requires
        m.wf(),
        key_index(m.temps, n, m.temps.len()) < 0,
    ensures
        run(m, instr_D7_jit_code(address_size_32, n)) == Some(after_xlat(m, address_size_32, n)),
{
    reveal(exec_access);
    let tail = seq![Op::SetNewLocal(n), Op::SafeRead8(WasmLocal::Temp(n)), Op::FreeLocal(n), Op::SetReg8(AL)];
    let head = (if address_size_32 { seq![Op::GetReg32(EBX)] } else { seq![Op::GetReg16(BX)] }) + seq![Op::GetReg8(AL), Op::AddI32] + (if !address_size_32 { seq![Op::ConstI32(0xFFFF), Op::AndI32] } else { Seq::<Op>::empty() }) + seq![Op::AddSegOffset(DS)];
    assert(instr_D7_jit_code(address_size_32, n) =~= head + tail);
    lemma_run_concat(m, head, tail);
    lemma_xlat_read(m, address_size_32, n);
    assert((0xFFFFi32 as u32) == 0xFFFFu32) by (bit_vector);
    if address_size_32 {
        assert(head.len() == 4);
    } else {
        assert(head.len() == 6);
    }
    reveal_with_fuel(run_from, 7);
    assert(run(m, head) == Some(m.push(xlat_address(m, address_size_32))));
}

proof fn lemma_stack_back(x: Machine)
    requires
        x.shaped(),
    ensures
        x.adjust_stack(2).adjust_stack((-2i32) as u32).regs == x.regs,
{
    let e = x.regs[ESP as int];
    assert(((-2i32) as u32) == 0xFFFF_FFFEu32) by (bit_vector);
    assert(wrapping_add(wrapping_add(e, 2), 0xFFFF_FFFE) == e);
    let w = with_low16(e, wrapping_add(e, 2));
    assert(with_low16(w, wrapping_add(w, 0xFFFF_FFFE)) == e) by (bit_vector)
        requires
            w == with_low16(e, wrapping_add(e, 2));
    assert(x.adjust_stack(2).adjust_stack((-2i32) as u32).regs =~= x.regs);
}

#[verifier::rlimit(40)]
proof fn lemma_pop16_enter(m: Machine, modrm_byte: u8, n: u32)
    requires
        m.wf(),
        key_index(m.temps, n, m.temps.len()) < 0,
    ensures
        run(m, seq![Op::AdjustStackReg(2), Op::ModrmResolve(modrm_byte), Op::SetNewLocal(n), Op::AdjustStackReg((-2i32) as u32)])
            == Some(Machine { temps: m.temps.push((n, m.env.operand_address)), ..m }),
{
    reveal(exec_access);
    let m1 = Machine { temps: m.temps.push((n, m.env.operand_address)), ..m };
    lemma_stack_back(m1);
    reveal_with_fuel(run_from, 5);
    assert(m.adjust_stack(2).push(m.env.operand_address).pop() =~= m.adjust_stack(2));
    assert(Machine { temps: m.temps.push((n, m.env.operand_address)), ..m.adjust_stack(2) } =~= m1.adjust_stack(2));
    assert(m1.adjust_stack(2).adjust_stack((-2i32) as u32) =~= m1);
}

#[verifier::rlimit(60)]
proof fn lemma_pop16_store(m: Machine, n: u32, v: u32)
    requires
        m.wf(),
        two_free_temps(m, n),
    ensures
        run(
            Machine { temps: m.temps.push((n, m.env.operand_address)), ..m }.push(v).adjust_stack(2),
            seq![Op::SetNewLocal((n + 1) as u32), Op::AdjustStackReg((-2i32) as u32), Op::SafeWrite16(WasmLocal::Temp(n), WasmLocal::Temp((n + 1) as u32)), Op::FreeLocal(n), Op::FreeLocal((n + 1) as u32), Op::AdjustStackReg(2)],
        ) == Some(
            if read16(m.memory, m.env.operand_address) is Some {
                Machine { memory: write16(m.memory, m.env.operand_address, v), ..m.adjust_stack(2) }
            } else {
                Machine {
                    faulted: true,
                    temps: m.temps.push((n, m.env.operand_address)).push(((n + 1) as u32, v)),
                    ..m
                }
            },
        ),
{
    reveal(exec_access);
    let a = m.env.operand_address;
    lemma_second_temp_free(m, n, a);
    let m1 = Machine { temps: m.temps.push((n, a)), ..m };
    let m2 = Machine { temps: m.temps.push((n, a)).push(((n + 1) as u32, v)), ..m };
    lemma_stack_back(m2);
    assert(m1.push(v).adjust_stack(2).pop() =~= Machine { temps: m1.temps, ..m.adjust_stack(2) });
    assert(Machine { temps: m2.temps, ..m.adjust_stack(2) } =~= m2.adjust_stack(2));
    assert(m2.adjust_stack(2).adjust_stack((-2i32) as u32) =~= m2);
    let t = m2.temps;
    assert(key_index(t, n, t.len()) == m.temps.len()) by {
        reveal_with_fuel(key_index, 2);
    }
    assert(t.remove(m.temps.len() as int) =~= m.temps.push(((n + 1) as u32, v)));
    assert(m.temps.push(((n + 1) as u32, v)).remove(m.temps.len() as int) =~= m.temps);
    reveal_with_fuel(run_from, 7);
}

/// `pop` to a word in memory (opcode `8F` with 16-bit operands; the operand address is
/// computed with the stack pointer already advanced): the word on top of the stack is
/// stored at the operand address and the stack pointer advances by 2.  When the stack
/// read faults, or the store faults, the stack pointer is back at its value before the
/// instruction and memory is unchanged.
pub proof fn law_pop16_mem(m: Machine, modrm_byte: u8, n: u32)
    requires
        m.wf(),
        two_free_temps(m, n),
    ensures
        run(m, instr16_8F_0_mem_jit_code(modrm_byte, n)) == Some(
            match read16(m.memory, m.stack_top_address()) {
                None => Machine { faulted: true, temps: m.temps.push((n, m.env.operand_address)), ..m },
                Some(v) => if read16(m.memory, m.env.operand_address) is Some {
                    Machine { memory: write16(m.memory, m.env.operand_address, v), ..m.adjust_stack(2) }
                } else {
                    Machine {
                        faulted: true,
                        temps: m.temps.push((n, m.env.operand_address)).push(((n + 1) as u32, v)),
                        ..m
                    }
                },
            },
        ),
{
    reveal(exec_access);
    let a = seq![Op::AdjustStackReg(2), Op::ModrmResolve(modrm_byte), Op::SetNewLocal(n), Op::AdjustStackReg((-2i32) as u32)];
    let b = seq![Op::Pop16];
    let c = seq![Op::SetNewLocal((n + 1) as u32), Op::AdjustStackReg((-2i32) as u32), Op::SafeWrite16(WasmLocal::Temp(n), WasmLocal::Temp((n + 1) as u32)), Op::FreeLocal(n), Op::FreeLocal((n + 1) as u32), Op::AdjustStackReg(2)];
    assert(instr16_8F_0_mem_jit_code(modrm_byte, n) =~= a + b + c);
    lemma_run_concat(m, a + b, c);
    lemma_run_concat(m, a, b);
    lemma_pop16_enter(m, modrm_byte, n);
    let m1 = Machine { temps: m.temps.push((n, m.env.operand_address)), ..m };
    assert(m1.stack_top_address() == m.stack_top_address());
    reveal_with_fuel(run_from, 2);
    match read16(m.memory, m.stack_top_address()) {
        None => {
            assert(run(m1, b) == Some(m1.fault()));
            assert(run(m1.fault(), c) == Some(m1.fault()));
        },
        Some(v) => {
            assert(run(m1, b) == Some(m1.push(v).adjust_stack(2)));
            lemma_pop16_store(m, n, v);
        },
    }
}

} // verus!
