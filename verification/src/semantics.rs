//! What recorded code computes.
//!
//! [`run`] executes a sequence of operations on an abstract machine: the WebAssembly
//! operand stack, the eight 32-bit general registers, the segment selectors, the
//! temporaries, the cells that hold the flags and the operands of the
//! lazily computed flags, and the bytes of guest memory that the code may access.  What
//! the machine takes from outside is given as part of it: the address that an
//! instruction's ModR/M operand resolves to, the immediates that follow in the
//! instruction stream, the offset added for each segment, the segment-override prefix,
//! the stack size, how the runtime computes the carry and zero flags from the flag cells,
//! and how its helpers and condition functions compute from their arguments and the flag
//! cells.  An access to a byte that is not accessible faults: the machine records the
//! fault and the rest of the code does not run; so does raising the general-protection
//! exception.  Operations whose effect lies outside this machine (helpers that return
//! nothing or read the registers from memory, floating-point values) have no meaning here:
//! running them gives `None`.
//! [`run`] takes straight-line code; [`run_blocks`] also passes through `if` blocks.

use vstd::prelude::*;
use crate::op::{Op, WasmLocal, GlobalPointer, BitSize};
use crate::consts::{ESP, SS};

verus! {

/// A value on the operand stack: a 32-bit word, a 64-bit word, or the address of a
/// global cell.
#[derive(Clone, Copy, PartialEq, Eq, Debug)]
pub enum Value {
    Word(u32),
    Long(u64),
    Address(GlobalPointer),
}

/// What the machine takes from outside and never changes.
pub struct Env {
    /// The address that the instruction's ModR/M operand resolves to.
    pub operand_address: u32,
    /// ES, CS, SS, DS, FS, GS.
    pub sregs: Seq<u32>,
    /// The offset that addressing through each segment adds: its base, or zero where the
    /// emulator treats the segment as flat.
    pub segment_offsets: Seq<u32>,
    /// The segment-override prefix of the instruction: zero for none, else the segment
    /// plus one (seven for the zero segment).
    pub segment_prefix: u32,
    /// Whether the stack is addressed through ESP (else through SP).
    pub stack_size_32: bool,
    /// The carry flag as the runtime computes it from FLAGS, FLAGS_CHANGED, LAST_OP1,
    /// LAST_RESULT and LAST_OP_SIZE.
    pub carry_rule: spec_fn(u32, u32, u32, u32, u32) -> bool,
    /// The zero flag as the runtime computes it from the same cells.
    pub zero_rule: spec_fn(u32, u32, u32, u32, u32) -> bool,
    /// What a runtime helper returns, from its name, its arguments and the flag cells
    /// (FLAGS, FLAGS_CHANGED, LAST_OP1, LAST_RESULT, LAST_OP_SIZE).
    pub result: spec_fn(&'static str, Seq<u32>, (u32, u32, u32, u32, u32)) -> u32,
    /// The flag cells a runtime helper leaves, from the same.
    pub cells: spec_fn(&'static str, Seq<u32>, (u32, u32, u32, u32, u32)) -> (u32, u32, u32, u32, u32),
    /// What a condition function returns, from the condition's number and the flag cells.
    pub condition: spec_fn(u32, (u32, u32, u32, u32, u32)) -> u32,
}

#[verifier::ext_equal]
pub struct Machine {
    /// The operand stack, its top last.
    pub stack: Seq<Value>,
    /// EAX, ECX, EDX, EBX, ESP, EBP, ESI, EDI.
    pub regs: Seq<u32>,
    /// Whether an access has faulted or an exception was raised.
    pub faulted: bool,
    /// What the machine takes from outside.
    pub env: Env,
    /// The live temporaries and their values.
    pub temps: Seq<(u32, u32)>,
    /// The live 64-bit temporaries and their values.
    pub temps64: Seq<(u32, u64)>,
    /// Accessible guest memory: an address and the byte stored there (its low 8 bits).
    pub memory: Seq<(u32, u32)>,
    /// The immediates that follow in the instruction stream, in the order they are read.
    pub immediates: Seq<u32>,
    /// The immediate read last from the instruction stream.
    pub pending: u32,
    /// The addresses of the read-modify-write accesses in progress, the innermost last.
    pub accesses: Seq<u32>,
    pub flags: u32,
    pub flags_changed: u32,
    pub last_op1: u32,
    pub last_result: u32,
    pub last_op_size: u32,
}

/// Where the temporary `t` is among the first `n` entries of `temps`, searching from the
/// last one; `-1` when it is not there.
pub open spec fn key_index(temps: Seq<(u32, u32)>, t: u32, n: nat) -> int
    decreases n,
{
    if n == 0 {
        -1
    } else if temps[n - 1].0 == t {
        n - 1
    } else {
        key_index(temps, t, (n - 1) as nat)
    }
}

/// Where the 64-bit temporary `t` is among the first `n` entries, searching from the
/// last one; `-1` when it is not there.
pub open spec fn key_index64(temps: Seq<(u32, u64)>, t: u32, n: nat) -> int
    decreases n,
{
    if n == 0 {
        -1
    } else if temps[n - 1].0 == t {
        n - 1
    } else {
        key_index64(temps, t, (n - 1) as nat)
    }
}

/// The segment that addressing through `default` uses under the segment-override prefix
/// `prefix`: the one the prefix names, if any.
#[verifier::opaque]
pub open spec fn effective_segment(prefix: u32, default: u32) -> u32 {
    if prefix & 7 != 0 {
        ((prefix & 7) - 1) as u32
    } else {
        default
    }
}

/// The offset that addressing through segment `s` adds; none for the zero segment.
#[verifier::opaque]
pub open spec fn segment_offset(offsets: Seq<u32>, s: u32) -> u32 {
    if s < 6 {
        offsets[s as int]
    } else {
        0
    }
}

/// The byte at address `a`, when it is accessible.
pub open spec fn read8(memory: Seq<(u32, u32)>, a: u32) -> Option<u32> {
    let i = key_index(memory, a, memory.len());
    if i >= 0 {
        Some(memory[i].1 & 0xFF)
    } else {
        None
    }
}

/// Memory with the byte at address `a` replaced by the low 8 bits of `v`; the byte
/// becomes accessible.
pub open spec fn write8(memory: Seq<(u32, u32)>, a: u32, v: u32) -> Seq<(u32, u32)> {
    let i = key_index(memory, a, memory.len());
    if i >= 0 {
        memory.update(i, (a, v & 0xFF))
    } else {
        memory.push((a, v & 0xFF))
    }
}

/// The little-endian word at address `a`, when both its bytes are accessible.
#[verifier::opaque]
pub open spec fn read16(memory: Seq<(u32, u32)>, a: u32) -> Option<u32> {
    match (read8(memory, a), read8(memory, wrapping_add(a, 1))) {
        (Some(b0), Some(b1)) => Some(b0 | (b1 << 8u32)),
        _ => None,
    }
}

/// The little-endian doubleword at address `a`, when its four bytes are accessible.
#[verifier::opaque]
pub open spec fn read32(memory: Seq<(u32, u32)>, a: u32) -> Option<u32> {
    match (
        read8(memory, a),
        read8(memory, wrapping_add(a, 1)),
        read8(memory, wrapping_add(a, 2)),
        read8(memory, wrapping_add(a, 3)),
    ) {
        (Some(b0), Some(b1), Some(b2), Some(b3)) => Some(b0 | (b1 << 8u32) | (b2 << 16u32) | (b3 << 24u32)),
        _ => None,
    }
}

/// Memory with the word at address `a` replaced by the low 16 bits of `v`.
#[verifier::opaque]
pub open spec fn write16(memory: Seq<(u32, u32)>, a: u32, v: u32) -> Seq<(u32, u32)> {
    write8(write8(memory, a, v), wrapping_add(a, 1), v >> 8u32)
}

/// Memory with the doubleword at address `a` replaced by `v`.
#[verifier::opaque]
pub open spec fn write32(memory: Seq<(u32, u32)>, a: u32, v: u32) -> Seq<(u32, u32)> {
    write8(
        write8(write8(write8(memory, a, v), wrapping_add(a, 1), v >> 8u32), wrapping_add(a, 2), v >> 16u32),
        wrapping_add(a, 3),
        v >> 24u32,
    )
}

impl Machine {
    /// The machine has its registers and segments, whatever has happened.
    pub open spec fn shaped(self) -> bool {
        self.regs.len() == 8 && self.env.sregs.len() == 6 && self.env.segment_offsets.len() == 6
    }

    /// The machine has its registers and segments and no access has faulted.
    pub open spec fn wf(self) -> bool {
        self.shaped() && !self.faulted
    }

    /// The 64-bit word on top of the stack.
    pub open spec fn top_long(self) -> Option<u64> {
        if self.stack.len() > 0 {
            match self.stack.last() {
                Value::Long(v) => Some(v),
                _ => None,
            }
        } else {
            None
        }
    }

    pub open spec fn push_long(self, v: u64) -> Machine {
        Machine { stack: self.stack.push(Value::Long(v)), ..self }
    }

    /// FLAGS, FLAGS_CHANGED, LAST_OP1, LAST_RESULT and LAST_OP_SIZE.
    pub open spec fn cells(self) -> (u32, u32, u32, u32, u32) {
        (self.flags, self.flags_changed, self.last_op1, self.last_result, self.last_op_size)
    }

    /// The machine with the flag cells replaced.
    pub open spec fn with_cells(self, c: (u32, u32, u32, u32, u32)) -> Machine {
        Machine { flags: c.0, flags_changed: c.1, last_op1: c.2, last_result: c.3, last_op_size: c.4, ..self }
    }

    /// What the helper `name` returns when called with `args` now.
    pub open spec fn call_result(self, name: &'static str, args: Seq<u32>) -> u32 {
        (self.env.result)(name, args, self.cells())
    }

    /// The machine after the helper `name` is called with `args`: the flag cells it leaves.
    pub open spec fn called(self, name: &'static str, args: Seq<u32>) -> Machine {
        self.with_cells((self.env.cells)(name, args, self.cells()))
    }

    /// The value of condition function `c` now.
    pub open spec fn condition(self, c: u32) -> u32 {
        (self.env.condition)(c, self.cells())
    }

    /// The machine after a faulting access or a raised exception.
    pub open spec fn fault(self) -> Machine {
        Machine { faulted: true, ..self }
    }

    /// The carry flag as the runtime computes it now.
    pub open spec fn carry(self) -> bool {
        (self.env.carry_rule)(self.flags, self.flags_changed, self.last_op1, self.last_result, self.last_op_size)
    }

    /// The zero flag as the runtime computes it now.
    pub open spec fn zero(self) -> bool {
        (self.env.zero_rule)(self.flags, self.flags_changed, self.last_op1, self.last_result, self.last_op_size)
    }

    /// The address of the top of the stack: SP or ESP after the stack segment's offset.
    pub open spec fn stack_top_address(self) -> u32 {
        wrapping_add(
            if self.env.stack_size_32 {
                self.regs[ESP as int]
            } else {
                self.regs[ESP as int] & 0xFFFF
            },
            self.env.segment_offsets[SS as int],
        )
    }

    /// The machine with `n` added to ESP, or to SP for a 16-bit stack.
    pub open spec fn adjust_stack(self, n: u32) -> Machine {
        let esp = self.regs[ESP as int];
        Machine {
            regs: self.regs.update(
                ESP as int,
                if self.env.stack_size_32 {
                    wrapping_add(esp, n)
                } else {
                    with_low16(esp, wrapping_add(esp, n))
                },
            ),
            ..self
        }
    }

    pub open spec fn push(self, v: u32) -> Machine {
        Machine { stack: self.stack.push(Value::Word(v)), ..self }
    }

    pub open spec fn push_address(self, g: GlobalPointer) -> Machine {
        Machine { stack: self.stack.push(Value::Address(g)), ..self }
    }

    /// The word on top of the stack.
    pub open spec fn top(self) -> Option<u32> {
        if self.stack.len() > 0 {
            match self.stack.last() {
                Value::Word(v) => Some(v),
                _ => None,
            }
        } else {
            None
        }
    }

    /// The global cell whose address is second from the top of the stack.
    pub open spec fn address_below_top(self) -> Option<GlobalPointer> {
        if self.stack.len() > 1 {
            match self.stack[self.stack.len() - 2] {
                Value::Address(g) => Some(g),
                _ => None,
            }
        } else {
            None
        }
    }

    pub open spec fn pop(self) -> Machine {
        Machine { stack: self.stack.drop_last(), ..self }
    }

    pub open spec fn local(self, l: WasmLocal) -> Option<u32> {
        match l {
            WasmLocal::Register(r) => if r < 8 {
                Some(self.regs[r as int])
            } else {
                None
            },
            WasmLocal::Temp(t) => if key_index(self.temps, t, self.temps.len()) >= 0 {
                Some(self.temps[key_index(self.temps, t, self.temps.len())].1)
            } else {
                None
            },
        }
    }

    pub open spec fn set_local(self, l: WasmLocal, v: u32) -> Machine {
        match l {
            WasmLocal::Register(r) => Machine { regs: self.regs.update(r as int, v), ..self },
            WasmLocal::Temp(t) => Machine {
                temps: self.temps.update(key_index(self.temps, t, self.temps.len()), (t, v)),
                ..self
            },
        }
    }

    /// The global cells that the machine holds.
    pub open spec fn global(self, g: GlobalPointer) -> Option<u32> {
        match g {
            GlobalPointer::Flags => Some(self.flags),
            GlobalPointer::FlagsChanged => Some(self.flags_changed),
            GlobalPointer::LastOp1 => Some(self.last_op1),
            GlobalPointer::LastResult => Some(self.last_result),
            GlobalPointer::LastOpSize => Some(self.last_op_size),
            _ => None,
        }
    }

    pub open spec fn set_global(self, g: GlobalPointer, v: u32) -> Machine {
        match g {
            GlobalPointer::Flags => Machine { flags: v, ..self },
            GlobalPointer::FlagsChanged => Machine { flags_changed: v, ..self },
            GlobalPointer::LastOp1 => Machine { last_op1: v, ..self },
            GlobalPointer::LastResult => Machine { last_result: v, ..self },
            _ => Machine { last_op_size: v, ..self },
        }
    }
}

/// `a + b` modulo 2^32.
pub open spec fn wrapping_add(a: u32, b: u32) -> u32 {
    if a + b > 0xFFFF_FFFF {
        (a + b - 0x1_0000_0000) as u32
    } else {
        (a + b) as u32
    }
}

/// `a - b` modulo 2^32.
pub open spec fn wrapping_sub(a: u32, b: u32) -> u32 {
    if a < b {
        (a - b + 0x1_0000_0000) as u32
    } else {
        (a - b) as u32
    }
}

/// The low 16 bits of `v` replaced by those of `low`.
pub open spec fn with_low16(v: u32, low: u32) -> u32 {
    (v & 0xFFFF_0000) | (low & 0xFFFF)
}

/// The 8-bit register `r`: AL, CL, DL, BL are the low bytes of the first four
/// registers, AH, CH, DH, BH their second bytes.
pub open spec fn reg8(regs: Seq<u32>, r: u32) -> u32 {
    if r < 4 {
        regs[r as int] & 0xFF
    } else {
        (regs[r - 4] >> 8u32) & 0xFF
    }
}

pub open spec fn set_reg8(regs: Seq<u32>, r: u32, v: u32) -> Seq<u32> {
    if r < 4 {
        regs.update(r as int, (regs[r as int] & 0xFFFF_FF00) | (v & 0xFF))
    } else {
        regs.update(r - 4, (regs[r - 4] & 0xFFFF_00FF) | ((v & 0xFF) << 8u32))
    }
}

/// `v` with its low byte sign-extended.
pub open spec fn sign_extend8(v: u32) -> u32 {
    if v & 0x80 == 0 {
        v & 0xFF
    } else {
        v | 0xFFFF_FF00
    }
}

/// `v` with its low 16 bits sign-extended.
pub open spec fn sign_extend16(v: u32) -> u32 {
    if v & 0x8000 == 0 {
        v & 0xFFFF
    } else {
        v | 0xFFFF_0000
    }
}

/// Arithmetic shift right of `a` by `b & 31`.
pub open spec fn shift_right_signed(a: u32, b: u32) -> u32 {
    ((a as i32) >> (b & 31)) as u32
}

/// The two-operand WebAssembly operations on words.
pub enum Binary {
    Add,
    Sub,
    And,
    Or,
    Xor,
    Shl,
    ShrU,
    ShrS,
    Ne,
}

pub open spec fn binary_value(k: Binary, a: u32, b: u32) -> u32 {
    match k {
        Binary::Add => wrapping_add(a, b),
        Binary::Sub => wrapping_sub(a, b),
        Binary::And => a & b,
        Binary::Or => a | b,
        Binary::Xor => a ^ b,
        Binary::Shl => a << (b & 31),
        Binary::ShrU => a >> (b & 31),
        Binary::ShrS => shift_right_signed(a, b),
        Binary::Ne => if a != b {
            1
        } else {
            0
        },
    }
}

/// Pops two words `a` (below) and `b` (on top) and pushes their result.
pub open spec fn binary(m: Machine, k: Binary) -> Option<Machine> {
    match (m.top(), m.pop().top()) {
        (Some(b), Some(a)) => Some(m.pop().pop().push(binary_value(k, a, b))),
        _ => None,
    }
}

/// The one-operand WebAssembly operations on words.
pub enum Unary {
    Eqz,
    SignExtend8,
    SignExtend16,
}

pub open spec fn unary_value(k: Unary, a: u32) -> u32 {
    match k {
        Unary::Eqz => if a == 0 {
            1
        } else {
            0
        },
        Unary::SignExtend8 => sign_extend8(a),
        Unary::SignExtend16 => sign_extend16(a),
    }
}

/// Pops a word and pushes its result.
pub open spec fn unary(m: Machine, k: Unary) -> Option<Machine> {
    match m.top() {
        Some(a) => Some(m.pop().push(unary_value(k, a))),
        None => None,
    }
}

/// The machine with `v` pushed, or, when the access gave nothing, after a fault.
pub open spec fn pushed_or_fault(m: Machine, v: Option<u32>) -> Machine {
    match v {
        Some(v) => m.push(v),
        None => m.fault(),
    }
}

/// The effect of the operations that access memory, the stack, the segments or the
/// runtime's flag computation.
#[verifier::opaque]
pub open spec fn exec_access(m: Machine, op: Op) -> Option<Machine> {
    match op {
        Op::ModrmResolveSafeRead8(_) => Some(pushed_or_fault(m, read8(m.memory, m.env.operand_address))),
        Op::ModrmResolveSafeRead16(_) => Some(pushed_or_fault(m, read16(m.memory, m.env.operand_address))),
        Op::ModrmResolveSafeRead32(_) => Some(pushed_or_fault(m, read32(m.memory, m.env.operand_address))),
        Op::SafeRead8(a) => match m.local(a) {
            Some(address) => Some(pushed_or_fault(m, read8(m.memory, address))),
            None => None,
        },
        Op::SafeRead16(a) => match m.local(a) {
            Some(address) => Some(pushed_or_fault(m, read16(m.memory, address))),
            None => None,
        },
        Op::SafeRead32(a) => match m.local(a) {
            Some(address) => Some(pushed_or_fault(m, read32(m.memory, address))),
            None => None,
        },
        Op::SafeWrite8(a, v) => match (m.local(a), m.local(v)) {
            (Some(address), Some(value)) => Some(if read8(m.memory, address) is Some {
                Machine { memory: write8(m.memory, address, value), ..m }
            } else {
                m.fault()
            }),
            _ => None,
        },
        Op::SafeWrite16(a, v) => match (m.local(a), m.local(v)) {
            (Some(address), Some(value)) => Some(if read16(m.memory, address) is Some {
                Machine { memory: write16(m.memory, address, value), ..m }
            } else {
                m.fault()
            }),
            _ => None,
        },
        Op::SafeWrite32(a, v) => match (m.local(a), m.local(v)) {
            (Some(address), Some(value)) => Some(if read32(m.memory, address) is Some {
                Machine { memory: write32(m.memory, address, value), ..m }
            } else {
                m.fault()
            }),
            _ => None,
        },
        Op::SafeReadWriteBegin(size, a) => match m.local(a) {
            Some(address) => if size == BitSize::Dword {
                match read32(m.memory, address) {
                    Some(v) => Some(Machine { accesses: m.accesses.push(address), ..m.push(v) }),
                    None => Some(m.fault()),
                }
            } else {
                None
            },
            None => None,
        },
        Op::SafeReadWriteEnd => match m.top() {
            Some(v) => if m.accesses.len() > 0 {
                Some(
                    Machine {
                        memory: write32(m.memory, m.accesses.last(), v),
                        accesses: m.accesses.drop_last(),
                        ..m.pop()
                    },
                )
            } else {
                None
            },
            None => None,
        },
        Op::GetCf => Some(m.push(if m.carry() {
            1
        } else {
            0
        })),
        Op::GetZf => Some(m.push(if m.zero() {
            1
        } else {
            0
        })),
        Op::GetSreg(r) => if r < 6 {
            Some(m.push(m.env.sregs[r as int]))
        } else {
            None
        },
        Op::AddSegOffset(segment) => match m.top() {
            Some(v) => if segment < 6 {
                Some(m.pop().push(wrapping_add(v, segment_offset(m.env.segment_offsets, effective_segment(m.env.segment_prefix, segment)))))
            } else {
                None
            },
            None => None,
        },
        Op::AdjustStackReg(n) => Some(m.adjust_stack(n)),
        Op::Pop16 => match read16(m.memory, m.stack_top_address()) {
            Some(v) => Some(m.push(v).adjust_stack(2)),
            None => Some(m.fault()),
        },
        _ => None,
    }
}

/// The effect of the operations that raise the general-protection exception or work on
/// 64-bit values.
#[verifier::opaque]
pub open spec fn exec_wide(m: Machine, op: Op) -> Option<Machine> {
    match op {
        Op::TriggerGp(_) => Some(m.fault()),
        Op::ConstI64(v) => Some(m.push_long(v as u64)),
        Op::ExtendUnsignedI32ToI64 => match m.top() {
            Some(v) => Some(m.pop().push_long(v as u64)),
            None => None,
        },
        Op::MulI64 => match (m.top_long(), m.pop().top_long()) {
            (Some(b), Some(a)) => Some(m.pop().pop().push_long(((a * b) % 0x1_0000_0000_0000_0000) as u64)),
            _ => None,
        },
        Op::ShrUI64 => match (m.top_long(), m.pop().top_long()) {
            (Some(b), Some(a)) => Some(m.pop().pop().push_long(a >> (b & 63))),
            _ => None,
        },
        Op::WrapI64ToI32 => match m.top_long() {
            Some(v) => Some(m.pop().push((v % 0x1_0000_0000) as u32)),
            None => None,
        },
        Op::SetNewLocalI64(t) => match m.top_long() {
            Some(v) => if key_index64(m.temps64, t, m.temps64.len()) >= 0 {
                None
            } else {
                Some(Machine { temps64: m.temps64.push((t, v)), ..m.pop() })
            },
            None => None,
        },
        Op::TeeNewLocalI64(t) => match m.top_long() {
            Some(v) => if key_index64(m.temps64, t, m.temps64.len()) >= 0 {
                None
            } else {
                Some(Machine { temps64: m.temps64.push((t, v)), ..m })
            },
            None => None,
        },
        Op::GetLocalI64(t) => if key_index64(m.temps64, t, m.temps64.len()) >= 0 {
            Some(m.push_long(m.temps64[key_index64(m.temps64, t, m.temps64.len())].1))
        } else {
            None
        },
        Op::FreeLocalI64(t) => if key_index64(m.temps64, t, m.temps64.len()) >= 0 {
            Some(Machine { temps64: m.temps64.remove(key_index64(m.temps64, t, m.temps64.len())), ..m })
        } else {
            None
        },
        _ => None,
    }
}

/// The effect of calling the runtime's helpers that compute from their arguments and the
/// flag cells, of its condition functions, and of the 32-bit pop.
#[verifier::opaque]
pub open spec fn exec_call(m: Machine, op: Op) -> Option<Machine> {
    match op {
        Op::CallFn1Ret(name) => match m.top() {
            Some(a) => Some(m.pop().called(name, seq![a]).push(m.call_result(name, seq![a]))),
            None => None,
        },
        Op::CallFn2Ret(name) => match (m.top(), m.pop().top()) {
            (Some(b), Some(a)) => Some(m.pop().pop().called(name, seq![a, b]).push(m.call_result(name, seq![a, b]))),
            _ => None,
        },
        Op::CallFn3Ret(name) => match (m.top(), m.pop().top(), m.pop().pop().top()) {
            (Some(c), Some(b), Some(a)) => Some(
                m.pop().pop().pop().called(name, seq![a, b, c]).push(m.call_result(name, seq![a, b, c])),
            ),
            _ => None,
        },
        Op::ConditionFn(c) => Some(m.push(m.condition(c))),
        Op::Pop32s => match read32(m.memory, m.stack_top_address()) {
            Some(v) => Some(m.push(v).adjust_stack(4)),
            None => Some(m.fault()),
        },
        _ => None,
    }
}

/// The effect of one operation, where the machine gives it one.
pub open spec fn exec(m: Machine, op: Op) -> Option<Machine> {
    match op {
        Op::ConstI32(i) => Some(m.push(i as u32)),
        Op::ConstGlobal(g) => Some(m.push_address(g)),
        Op::GetLocal(l) => match m.local(l) {
            Some(v) => Some(m.push(v)),
            None => None,
        },
        Op::SetLocal(l) => match (m.top(), m.local(l)) {
            (Some(v), Some(_)) => Some(m.pop().set_local(l, v)),
            _ => None,
        },
        Op::SetNewLocal(t) => match m.top() {
            Some(v) => if key_index(m.temps, t, m.temps.len()) >= 0 {
                None
            } else {
                Some(Machine { temps: m.temps.push((t, v)), ..m.pop() })
            },
            None => None,
        },
        Op::FreeLocal(t) => if key_index(m.temps, t, m.temps.len()) >= 0 {
            Some(Machine { temps: m.temps.remove(key_index(m.temps, t, m.temps.len())), ..m })
        } else {
            None
        },
        Op::AddI32 => binary(m, Binary::Add),
        Op::SubI32 => binary(m, Binary::Sub),
        Op::AndI32 => binary(m, Binary::And),
        Op::OrI32 => binary(m, Binary::Or),
        Op::XorI32 => binary(m, Binary::Xor),
        Op::ShlI32 => binary(m, Binary::Shl),
        Op::ShrUI32 => binary(m, Binary::ShrU),
        Op::ShrSI32 => binary(m, Binary::ShrS),
        Op::NeI32 => binary(m, Binary::Ne),
        Op::EqzI32 => unary(m, Unary::Eqz),
        Op::SignExtendI8 => unary(m, Unary::SignExtend8),
        Op::SignExtendI16 => unary(m, Unary::SignExtend16),
        Op::LoadAlignedI32(g) => match m.global(g) {
            Some(v) => Some(m.push(v)),
            None => None,
        },
        Op::StoreAlignedI32(offset) => match (m.top(), m.address_below_top()) {
            (Some(v), Some(g)) => if offset == 0 && m.global(g) is Some {
                Some(m.pop().pop().set_global(g, v))
            } else {
                None
            },
            _ => None,
        },
        Op::GetReg8(r) => if r < 8 {
            Some(m.push(reg8(m.regs, r)))
        } else {
            None
        },
        Op::GetReg16(r) => if r < 8 {
            Some(m.push(m.regs[r as int] & 0xFFFF))
        } else {
            None
        },
        Op::GetReg32(r) => if r < 8 {
            Some(m.push(m.regs[r as int]))
        } else {
            None
        },
        Op::SetReg8(r) => match m.top() {
            Some(v) => if r < 8 {
                Some(Machine { regs: set_reg8(m.regs, r, v), ..m.pop() })
            } else {
                None
            },
            None => None,
        },
        Op::SetReg16(r) => match m.top() {
            Some(v) => if r < 8 {
                Some(Machine { regs: m.regs.update(r as int, with_low16(m.regs[r as int], v)), ..m.pop() })
            } else {
                None
            },
            None => None,
        },
        Op::SetReg32(r) => match m.top() {
            Some(v) => if r < 8 {
                Some(Machine { regs: m.regs.update(r as int, v), ..m.pop() })
            } else {
                None
            },
            None => None,
        },
        Op::SetReg8R(d, s) => if d < 8 && s < 8 {
            Some(Machine { regs: set_reg8(m.regs, d, reg8(m.regs, s)), ..m })
        } else {
            None
        },
        Op::SetReg16R(d, s) => if d < 8 && s < 8 {
            Some(Machine { regs: m.regs.update(d as int, with_low16(m.regs[d as int], m.regs[s as int])), ..m })
        } else {
            None
        },
        Op::SetReg32R(d, s) => if d < 8 && s < 8 {
            Some(Machine { regs: m.regs.update(d as int, m.regs[s as int]), ..m })
        } else {
            None
        },
        Op::SetReg16Local(l) => match (m.top(), m.local(l)) {
            (Some(v), Some(old)) => Some(m.pop().set_local(l, with_low16(old, v))),
            _ => None,
        },
        Op::SetFlagsBits(b) => Some(Machine { flags: m.flags | (b as u32), ..m }),
        Op::ClearFlagsBits(b) => Some(Machine { flags: m.flags & !(b as u32), ..m }),
        Op::SetLastOp1(l) => match m.local(l) {
            Some(v) => Some(Machine { last_op1: v, ..m }),
            None => None,
        },
        Op::SetLastResult(l) => match m.local(l) {
            Some(v) => Some(Machine { last_result: v, ..m }),
            None => None,
        },
        Op::SetLastOpSize(s) => Some(Machine { last_op_size: s as u32, ..m }),
        Op::SetFlagsChanged(f) => Some(Machine { flags_changed: f as u32, ..m }),
        Op::ModrmResolve(_) => Some(m.push(m.env.operand_address)),
        Op::ModrmResolveSafeRead8(_) | Op::ModrmResolveSafeRead16(_) | Op::ModrmResolveSafeRead32(_)
        | Op::SafeRead8(_) | Op::SafeRead16(_) | Op::SafeRead32(_) | Op::SafeWrite8(_, _)
        | Op::SafeWrite16(_, _) | Op::SafeWrite32(_, _) | Op::SafeReadWriteBegin(_, _)
        | Op::SafeReadWriteEnd | Op::GetCf | Op::GetZf | Op::GetSreg(_) | Op::AddSegOffset(_)
        | Op::AdjustStackReg(_) | Op::Pop16 => exec_access(m, op),
        Op::CallFn1Ret(_) | Op::CallFn2Ret(_) | Op::CallFn3Ret(_) | Op::ConditionFn(_)
        | Op::Pop32s => exec_call(m, op),
        Op::TriggerGp(_) | Op::ConstI64(_) | Op::ExtendUnsignedI32ToI64 | Op::MulI64 | Op::ShrUI64
        | Op::WrapI64ToI32 | Op::SetNewLocalI64(_) | Op::TeeNewLocalI64(_) | Op::GetLocalI64(_)
        | Op::FreeLocalI64(_) => exec_wide(m, op),
        Op::ReadImm(_) => if m.immediates.len() > 0 {
            Some(Machine { pending: m.immediates[0], immediates: m.immediates.drop_first(), ..m })
        } else {
            None
        },
        Op::ConstPendingImm(mask, shift) => if shift < 32 {
            Some(m.push((((m.pending as i32) & mask) >> shift) as u32))
        } else {
            None
        },
        _ => None,
    }
}

/// Runs `code` from its `i`-th operation on.
pub open spec fn run_from(m: Machine, code: Seq<Op>, i: nat) -> Option<Machine>
    decreases code.len() - i,
{
    if i >= code.len() || m.faulted {
        Some(m)
    } else {
        match exec(m, code[i as int]) {
            Some(next) => run_from(next, code, i + 1),
            None => None,
        }
    }
}

/// Runs `code` on `m`; `None` when an operation has no meaning on the machine.  After a
/// fault, the rest of the code does not run.
pub open spec fn run(m: Machine, code: Seq<Op>) -> Option<Machine> {
    run_from(m, code, 0)
}

proof fn lemma_run_from_suffix(m: Machine, a: Seq<Op>, b: Seq<Op>, j: nat)
    ensures
        run_from(m, a + b, a.len() + j) == run_from(m, b, j),
    decreases b.len() - j,
{
    if j < b.len() {
        assert((a + b)[(a.len() + j) as int] == b[j as int]);
        match exec(m, b[j as int]) {
            Some(next) => lemma_run_from_suffix(next, a, b, j + 1),
            None => {},
        }
    }
}

proof fn lemma_run_from_concat(m: Machine, a: Seq<Op>, b: Seq<Op>, i: nat)
    requires
        i <= a.len(),
    ensures
        run_from(m, a + b, i) == (match run_from(m, a, i) {
            Some(x) => run(x, b),
            None => None,
        }),
    decreases a.len() - i,
{
    if i == a.len() {
        lemma_run_from_suffix(m, a, b, 0);
    } else {
        assert((a + b)[i as int] == a[i as int]);
        match exec(m, a[i as int]) {
            Some(next) => lemma_run_from_concat(next, a, b, i + 1),
            None => {},
        }
    }
}

/// Running two pieces of code one after the other is running their concatenation.
pub proof fn lemma_run_concat(m: Machine, a: Seq<Op>, b: Seq<Op>)
    ensures
        run(m, a + b) == (match run(m, a) {
            Some(x) => run(x, b),
            None => None,
        }),
{
    lemma_run_from_concat(m, a, b, 0);
}

/// Whether operations run inside the open `if` blocks: each holds, innermost last,
/// whether the code around it runs and whether the part of it being passed runs.
pub open spec fn active(blocks: Seq<(bool, bool)>) -> bool {
    blocks.len() == 0 || blocks.last().1
}

/// The operations that open, switch or close an `if` block.
pub open spec fn is_block_op(op: Op) -> bool {
    op is IfVoid || op is IfI32 || op is Else || op is BlockEnd
}

/// The effect of an operation that opens, switches or closes an `if` block: opening pops
/// the condition where the code runs; the `else` part runs where the `then` part did not.
pub open spec fn exec_block(m: Machine, blocks: Seq<(bool, bool)>, op: Op) -> Option<(Machine, Seq<(bool, bool)>)> {
    match op {
        Op::IfVoid | Op::IfI32 => if active(blocks) {
            match m.top() {
                Some(c) => Some((m.pop(), blocks.push((true, c != 0)))),
                None => None,
            }
        } else {
            Some((m, blocks.push((false, false))))
        },
        Op::Else => if blocks.len() > 0 {
            Some((m, blocks.drop_last().push((blocks.last().0, blocks.last().0 && !blocks.last().1))))
        } else {
            None
        },
        Op::BlockEnd => if blocks.len() > 0 {
            Some((m, blocks.drop_last()))
        } else {
            None
        },
        _ => None,
    }
}

/// Runs `code` from its `i`-th operation on, inside the open blocks `blocks`: the
/// operations of a part of a block that does not run are passed over.
pub open spec fn run_blocks_from(m: Machine, code: Seq<Op>, i: nat, blocks: Seq<(bool, bool)>) -> Option<(Machine, Seq<(bool, bool)>)>
    decreases code.len() - i,
{
    if i >= code.len() || m.faulted {
        Some((m, blocks))
    } else if is_block_op(code[i as int]) {
        match exec_block(m, blocks, code[i as int]) {
            Some((next, b)) => run_blocks_from(next, code, i + 1, b),
            None => None,
        }
    } else if !active(blocks) {
        run_blocks_from(m, code, i + 1, blocks)
    } else {
        match exec(m, code[i as int]) {
            Some(next) => run_blocks_from(next, code, i + 1, blocks),
            None => None,
        }
    }
}

/// Runs `code`, which may hold `if` blocks, on `m`; `None` when an operation has no
/// meaning on the machine or, unless the code stopped at a fault, a block is not closed.
pub open spec fn run_blocks(m: Machine, code: Seq<Op>) -> Option<Machine> {
    match run_blocks_from(m, code, 0, Seq::empty()) {
        Some((x, b)) => if b.len() == 0 || x.faulted {
            Some(x)
        } else {
            None
        },
        None => None,
    }
}

proof fn lemma_run_blocks_from_suffix(m: Machine, a: Seq<Op>, b: Seq<Op>, j: nat, blocks: Seq<(bool, bool)>)
    ensures
        run_blocks_from(m, a + b, a.len() + j, blocks) == run_blocks_from(m, b, j, blocks),
    decreases b.len() - j,
{
    if j < b.len() && !m.faulted {
        assert((a + b)[(a.len() + j) as int] == b[j as int]);
        if is_block_op(b[j as int]) {
            match exec_block(m, blocks, b[j as int]) {
                Some((next, bl)) => lemma_run_blocks_from_suffix(next, a, b, j + 1, bl),
                None => {},
            }
        } else if !active(blocks) {
            lemma_run_blocks_from_suffix(m, a, b, j + 1, blocks);
        } else {
            match exec(m, b[j as int]) {
                Some(next) => lemma_run_blocks_from_suffix(next, a, b, j + 1, blocks),
                None => {},
            }
        }
    }
}

proof fn lemma_run_blocks_from_concat(m: Machine, a: Seq<Op>, b: Seq<Op>, i: nat, blocks: Seq<(bool, bool)>)
    requires
        i <= a.len(),
    ensures
        run_blocks_from(m, a + b, i, blocks) == (match run_blocks_from(m, a, i, blocks) {
            Some((x, bl)) => run_blocks_from(x, b, 0, bl),
            None => None,
        }),
    decreases a.len() - i,
{
    if i == a.len() || m.faulted {
        lemma_run_blocks_from_suffix(m, a, b, 0, blocks);
        if m.faulted {
            assert(run_blocks_from(m, b, 0, blocks) == Some((m, blocks)));
        }
    } else {
        assert((a + b)[i as int] == a[i as int]);
        if is_block_op(a[i as int]) {
            match exec_block(m, blocks, a[i as int]) {
                Some((next, bl)) => lemma_run_blocks_from_concat(next, a, b, i + 1, bl),
                None => {},
            }
        } else if !active(blocks) {
            lemma_run_blocks_from_concat(m, a, b, i + 1, blocks);
        } else {
            match exec(m, a[i as int]) {
                Some(next) => lemma_run_blocks_from_concat(next, a, b, i + 1, blocks),
                None => {},
            }
        }
    }
}

/// Running two pieces of code one after the other, inside the same open blocks, is
/// running their concatenation.
pub proof fn lemma_run_blocks_concat(m: Machine, a: Seq<Op>, b: Seq<Op>, blocks: Seq<(bool, bool)>)
    ensures
        run_blocks_from(m, a + b, 0, blocks) == (match run_blocks_from(m, a, 0, blocks) {
            Some((x, bl)) => run_blocks_from(x, b, 0, bl),
            None => None,
        }),
{
    lemma_run_blocks_from_concat(m, a, b, 0, blocks);
}

proof fn lemma_run_blocks_from_agrees(m: Machine, code: Seq<Op>, i: nat)
    requires
        run_from(m, code, i) is Some,
    ensures
        run_blocks_from(m, code, i, Seq::empty()) == Some((run_from(m, code, i)->0, Seq::<(bool, bool)>::empty())),
    decreases code.len() - i,
{
    if i < code.len() && !m.faulted {
        let op = code[i as int];
        assert(!is_block_op(op));
        lemma_run_blocks_from_agrees(exec(m, op)->0, code, i + 1);
    }
}

/// Where code without blocks runs, running it with blocks gives the same machine and
/// opens no block.
pub proof fn lemma_run_blocks_agrees(m: Machine, code: Seq<Op>)
    requires
        run(m, code) is Some,
    ensures
        run_blocks_from(m, code, 0, Seq::empty()) == Some((run(m, code)->0, Seq::<(bool, bool)>::empty())),
        run_blocks(m, code) == run(m, code),
{
    lemma_run_blocks_from_agrees(m, code, 0);
}

/// `key_index` gives `-1` or the position below `n` of an entry with the key.
pub proof fn lemma_key_index_found(s: Seq<(u32, u32)>, t: u32, n: nat)
    requires
        n <= s.len(),
    ensures
        -1 <= key_index(s, t, n) < n,
        key_index(s, t, n) >= 0 ==> s[key_index(s, t, n)].0 == t,
    decreases n,
{
    if n > 0 {
        lemma_key_index_found(s, t, (n - 1) as nat);
    }
}

/// Two lists whose first `n` keys agree find every key at the same position.
pub proof fn lemma_key_index_same_keys(s1: Seq<(u32, u32)>, s2: Seq<(u32, u32)>, t: u32, n: nat)
    requires
        n <= s1.len(),
        n <= s2.len(),
        forall|k: int| 0 <= k < n ==> #[trigger] s1[k].0 == s2[k].0,
    ensures
        key_index(s1, t, n) == key_index(s2, t, n),
    decreases n,
{
    if n > 0 {
        lemma_key_index_same_keys(s1, s2, t, (n - 1) as nat);
    }
}

/// Setting a local and reading it back gives the value set.
pub proof fn lemma_local_after_set(m: Machine, d: WasmLocal, v: u32)
    requires
        m.wf(),
        m.local(d) is Some,
    ensures
        m.set_local(d, v).local(d) == Some(v),
        m.set_local(d, v).wf(),
        m.set_local(d, v).regs.len() == 8,
{
    match d {
        WasmLocal::Register(_) => {},
        WasmLocal::Temp(t) => {
            let i = key_index(m.temps, t, m.temps.len());
            lemma_key_index_found(m.temps, t, m.temps.len());
            let temps = m.temps.update(i, (t, v));
            assert forall|k: int| 0 <= k < m.temps.len() implies #[trigger] temps[k].0 == m.temps[k].0 by {
            }
            lemma_key_index_same_keys(temps, m.temps, t, m.temps.len());
        },
    }
}

} // verus!
