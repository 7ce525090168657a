//! An executable form of the machine of [`crate::semantics`]: runs recorded code on
//! concrete values, with the same result as [`run`].

use vstd::prelude::*;
use crate::op::{Op, WasmLocal, GlobalPointer, BitSize};
use crate::consts::{ESP, SS};
use crate::semantics::{
    Machine, Env, Value, Binary, Unary, exec, exec_access, exec_wide, exec_call, run, run_from, key_index, key_index64,
    run_blocks, run_blocks_from, exec_block, active, is_block_op, binary_value, unary_value,
    reg8, set_reg8, read8, read16, read32, write8, write16, write32, wrapping_add, with_low16,
};

verus! {

/// The machine's state.
pub struct State {
    pub stack: Vec<Value>,
    pub regs: Vec<u32>,
    pub sregs: Vec<u32>,
    pub segment_offsets: Vec<u32>,
    pub segment_prefix: u32,
    pub stack_size_32: bool,
    pub faulted: bool,
    /// The carry flag that the runtime's computation gives.
    pub carry: bool,
    /// The zero flag that the runtime's computation gives.
    pub zero: bool,
    /// What every helper returns; helpers leave the flag cells.
    pub call_value: u32,
    /// What every condition function returns.
    pub condition_value: u32,
    pub temps: Vec<(u32, u32)>,
    pub temps64: Vec<(u32, u64)>,
    pub memory: Vec<(u32, u32)>,
    pub operand_address: u32,
    pub immediates: Vec<u32>,
    pub pending: u32,
    pub accesses: Vec<u32>,
    pub flags: u32,
    pub flags_changed: u32,
    pub last_op1: u32,
    pub last_result: u32,
    pub last_op_size: u32,
}

impl View for State {
    type V = Machine;

    open spec fn view(&self) -> Machine {
        Machine {
            stack: self.stack@,
            regs: self.regs@,
            env: Env {
                operand_address: self.operand_address,
                sregs: self.sregs@,
                segment_offsets: self.segment_offsets@,
                segment_prefix: self.segment_prefix,
                stack_size_32: self.stack_size_32,
                carry_rule: |f: u32, c: u32, o: u32, r: u32, z: u32| self.carry,
                zero_rule: |f: u32, c: u32, o: u32, r: u32, z: u32| self.zero,
                result: |n: &'static str, a: Seq<u32>, c: (u32, u32, u32, u32, u32)| self.call_value,
                cells: |n: &'static str, a: Seq<u32>, c: (u32, u32, u32, u32, u32)| c,
                condition: |k: u32, c: (u32, u32, u32, u32, u32)| self.condition_value,
            },
            faulted: self.faulted,
            temps: self.temps@,
            temps64: self.temps64@,
            memory: self.memory@,
            immediates: self.immediates@,
            pending: self.pending,
            accesses: self.accesses@,
            flags: self.flags,
            flags_changed: self.flags_changed,
            last_op1: self.last_op1,
            last_result: self.last_result,
            last_op_size: self.last_op_size,
        }
    }
}

fn find_key(temps: &Vec<(u32, u32)>, t: u32) -> (i: Option<usize>)
    ensures
        match i {
            Some(i) => key_index(temps@, t, temps@.len()) == i && i < temps@.len(),
            None => key_index(temps@, t, temps@.len()) < 0,
        },
{
    let mut n = temps.len();
    while n > 0
        invariant
            n <= temps@.len(),
            key_index(temps@, t, temps@.len()) == key_index(temps@, t, n as nat),
        decreases n,
    {
        if temps[n - 1].0 == t {
            return Some(n - 1);
        }
        n = n - 1;
    }
    None
}

fn find_key64(temps: &Vec<(u32, u64)>, t: u32) -> (i: Option<usize>)
    ensures
        match i {
            Some(i) => key_index64(temps@, t, temps@.len()) == i && i < temps@.len(),
            None => key_index64(temps@, t, temps@.len()) < 0,
        },
{
    let mut n = temps.len();
    while n > 0
        invariant
            n <= temps@.len(),
            key_index64(temps@, t, temps@.len()) == key_index64(temps@, t, n as nat),
        decreases n,
    {
        if temps[n - 1].0 == t {
            return Some(n - 1);
        }
        n = n - 1;
    }
    None
}

fn is_block(op: Op) -> (b: bool)
    ensures
        b == is_block_op(op),
{
    match op {
        Op::IfVoid | Op::IfI32 | Op::Else | Op::BlockEnd => true,
        _ => false,
    }
}

fn is_active(blocks: &Vec<(bool, bool)>) -> (a: bool)
    ensures
        a == active(blocks@),
{
    blocks.len() == 0 || blocks[blocks.len() - 1].1
}

fn binary_value_of(k: Binary, a: u32, b: u32) -> (r: u32)
    ensures
        r == binary_value(k, a, b),
{
    assert(b & 31 < 32) by (bit_vector);
    match k {
        Binary::Add => {
            if a as u64 + b as u64 > 0xFFFF_FFFF {
                (a as u64 + b as u64 - 0x1_0000_0000) as u32
            } else {
                a + b
            }
        },
        Binary::Sub => {
            if a < b {
                (a as u64 + 0x1_0000_0000 - b as u64) as u32
            } else {
                a - b
            }
        },
        Binary::And => a & b,
        Binary::Or => a | b,
        Binary::Xor => a ^ b,
        Binary::Shl => {
            a << (b & 31)
        },
        Binary::ShrU => {
            a >> (b & 31)
        },
        Binary::ShrS => {
            ((a as i32) >> (b & 31)) as u32
        },
        Binary::Ne => if a != b {
            1
        } else {
            0
        },
    }
}

fn unary_value_of(k: Unary, a: u32) -> (r: u32)
    ensures
        r == unary_value(k, a),
{
    match k {
        Unary::Eqz => if a == 0 {
            1
        } else {
            0
        },
        Unary::SignExtend8 => if a & 0x80 == 0 {
            a & 0xFF
        } else {
            a | 0xFFFF_FF00
        },
        Unary::SignExtend16 => if a & 0x8000 == 0 {
            a & 0xFFFF
        } else {
            a | 0xFFFF_0000
        },
    }
}

/// `a + k` modulo 2^32.
fn address_plus(a: u32, k: u32) -> (r: u32)
    ensures
        r == wrapping_add(a, k),
{
    if a as u64 + k as u64 > 0xFFFF_FFFF {
        (a as u64 + k as u64 - 0x1_0000_0000) as u32
    } else {
        a + k
    }
}

fn six_zeros() -> (v: Vec<u32>)
    ensures
        v@ == seq![0u32, 0u32, 0u32, 0u32, 0u32, 0u32],
{
    let mut v: Vec<u32> = Vec::new();
    v.push(0);
    v.push(0);
    v.push(0);
    v.push(0);
    v.push(0);
    v.push(0);
    v
}

impl State {
    /// A machine with the given registers, zero selectors and segment offsets, no segment
    /// prefix, a 32-bit stack, an empty stack, no temporaries, no accessible memory, no
    /// immediates to read, carry and zero computed as clear, and all cells zero.
    pub fn new(regs: [u32; 8]) -> (s: State)
        ensures
            s@.wf(),
            s@.env.sregs == seq![0u32, 0u32, 0u32, 0u32, 0u32, 0u32],
            s@.env.segment_offsets == seq![0u32, 0u32, 0u32, 0u32, 0u32, 0u32],
            s@.env.segment_prefix == 0,
            s@.env.stack_size_32,
            !s.carry,
            !s.zero,
            s@.regs == regs@,
            s@.stack.len() == 0,
            s@.temps.len() == 0,
            s@.temps64.len() == 0,
            s@.memory.len() == 0,
            s@.env.operand_address == 0,
            s@.immediates.len() == 0,
            s@.pending == 0,
            s@.accesses.len() == 0,
            s@.flags == 0,
            s@.flags_changed == 0,
            s@.last_op1 == 0,
            s@.last_result == 0,
            s@.last_op_size == 0,
    {
        let mut v: Vec<u32> = Vec::new();
        let mut i: usize = 0;
        while i < 8
            invariant
                i <= 8,
                v@ == regs@.subrange(0, i as int),
            decreases 8 - i,
        {
            v.push(regs[i]);
            i = i + 1;
            proof {
                assert(v@ =~= regs@.subrange(0, i as int));
            }
        }
        proof {
            assert(v@ =~= regs@);
        }
        State {
            stack: Vec::new(),
            regs: v,
            sregs: six_zeros(),
            segment_offsets: six_zeros(),
            segment_prefix: 0,
            stack_size_32: true,
            faulted: false,
            carry: false,
            zero: false,
            call_value: 0,
            condition_value: 0,
            temps: Vec::new(),
            temps64: Vec::new(),
            memory: Vec::new(),
            operand_address: 0,
            immediates: Vec::new(),
            pending: 0,
            accesses: Vec::new(),
            flags: 0,
            flags_changed: 0,
            last_op1: 0,
            last_result: 0,
            last_op_size: 0,
        }
    }

    /// Makes the byte at address `a` accessible and sets it to the low 8 bits of `v`.
    pub fn store8(&mut self, a: u32, v: u32)
        ensures
            final(self)@ == (Machine { memory: write8(old(self)@.memory, a, v), ..old(self)@ }),
    {
        match find_key(&self.memory, a) {
            Some(i) => {
                self.memory.set(i, (a, v & 0xFF));
            },
            None => {
                self.memory.push((a, v & 0xFF));
            },
        }
    }

    /// Makes the word at address `a` accessible and sets it to the low 16 bits of `v`.
    pub fn store16(&mut self, a: u32, v: u32)
        ensures
            final(self)@ == (Machine { memory: write16(old(self)@.memory, a, v), ..old(self)@ }),
    {
        proof {
            reveal(write16);
        }
        self.store8(a, v);
        let a1 = address_plus(a, 1);
        self.store8(a1, v >> 8u32);
    }

    /// Makes the doubleword at address `a` accessible and sets it to `v`.
    pub fn store32(&mut self, a: u32, v: u32)
        ensures
            final(self)@ == (Machine { memory: write32(old(self)@.memory, a, v), ..old(self)@ }),
    {
        proof {
            reveal(write32);
        }
        self.store8(a, v);
        let a1 = address_plus(a, 1);
        self.store8(a1, v >> 8u32);
        let a2 = address_plus(a, 2);
        self.store8(a2, v >> 16u32);
        let a3 = address_plus(a, 3);
        self.store8(a3, v >> 24u32);
    }

    /// The byte at address `a`, when it is accessible.
    pub fn load8(&self, a: u32) -> (v: Option<u32>)
        ensures
            v == read8(self@.memory, a),
    {
        match find_key(&self.memory, a) {
            Some(i) => Some(self.memory[i].1 & 0xFF),
            None => None,
        }
    }

    /// The word at address `a`, when it is accessible.
    pub fn load16(&self, a: u32) -> (v: Option<u32>)
        ensures
            v == read16(self@.memory, a),
    {
        proof {
            reveal(read16);
        }
        match (self.load8(a), self.load8(address_plus(a, 1))) {
            (Some(b0), Some(b1)) => Some(b0 | (b1 << 8u32)),
            _ => None,
        }
    }

    /// The doubleword at address `a`, when it is accessible.
    pub fn load32(&self, a: u32) -> (v: Option<u32>)
        ensures
            v == read32(self@.memory, a),
    {
        proof {
            reveal(read32);
        }
        match (
            self.load8(a),
            self.load8(address_plus(a, 1)),
            self.load8(address_plus(a, 2)),
            self.load8(address_plus(a, 3)),
        ) {
            (Some(b0), Some(b1), Some(b2), Some(b3)) => Some(b0 | (b1 << 8u32) | (b2 << 16u32) | (b3 << 24u32)),
            _ => None,
        }
    }

    fn push_or_fault(&mut self, v: Option<u32>)
        ensures
            final(self)@ == crate::semantics::pushed_or_fault(old(self)@, v),
    {
        match v {
            Some(v) => self.push(v),
            None => self.faulted = true,
        }
    }

    fn adjust_stack(&mut self, n: u32)
        requires
            old(self)@.shaped(),
        ensures
            final(self)@ == old(self)@.adjust_stack(n),
    {
        let esp = self.regs[ESP as usize];
        let sum = address_plus(esp, n);
        if self.stack_size_32 {
            self.regs.set(ESP as usize, sum);
        } else {
            self.regs.set(ESP as usize, (esp & 0xFFFF_0000) | (sum & 0xFFFF));
        }
    }

    fn top(&self) -> (v: Option<u32>)
        ensures
            v == self@.top(),
    {
        if self.stack.len() > 0 {
            match self.stack[self.stack.len() - 1] {
                Value::Word(v) => Some(v),
                _ => None,
            }
        } else {
            None
        }
    }

    fn second(&self) -> (v: Option<u32>)
        ensures
            self@.stack.len() > 0 ==> v == self@.pop().top(),
    {
        proof {
            if self.stack@.len() > 1 {
                assert(self@.pop().stack.last() == self.stack@[self.stack@.len() - 2]);
            }
        }
        if self.stack.len() > 1 {
            match self.stack[self.stack.len() - 2] {
                Value::Word(v) => Some(v),
                _ => None,
            }
        } else {
            None
        }
    }

    fn top_long(&self) -> (v: Option<u64>)
        ensures
            v == self@.top_long(),
    {
        if self.stack.len() > 0 {
            match self.stack[self.stack.len() - 1] {
                Value::Long(v) => Some(v),
                _ => None,
            }
        } else {
            None
        }
    }

    fn second_long(&self) -> (v: Option<u64>)
        ensures
            self@.stack.len() > 0 ==> v == self@.pop().top_long(),
    {
        proof {
            if self.stack@.len() > 1 {
                assert(self@.pop().stack.last() == self.stack@[self.stack@.len() - 2]);
            }
        }
        if self.stack.len() > 1 {
            match self.stack[self.stack.len() - 2] {
                Value::Long(v) => Some(v),
                _ => None,
            }
        } else {
            None
        }
    }

    fn third(&self) -> (v: Option<u32>)
        ensures
            self@.stack.len() > 1 ==> v == self@.pop().pop().top(),
    {
        proof {
            if self.stack@.len() > 2 {
                assert(self@.pop().pop().stack.last() == self.stack@[self.stack@.len() - 3]);
            }
        }
        if self.stack.len() > 2 {
            match self.stack[self.stack.len() - 3] {
                Value::Word(v) => Some(v),
                _ => None,
            }
        } else {
            None
        }
    }

    fn address_below_top(&self) -> (g: Option<GlobalPointer>)
        ensures
            g == self@.address_below_top(),
    {
        if self.stack.len() > 1 {
            match self.stack[self.stack.len() - 2] {
                Value::Address(g) => Some(g),
                _ => None,
            }
        } else {
            None
        }
    }

    fn push(&mut self, v: u32)
        ensures
            final(self)@ == old(self)@.push(v),
    {
        self.stack.push(Value::Word(v));
    }

    fn pop(&mut self)
        requires
            old(self).stack.len() > 0,
        ensures
            final(self)@ == old(self)@.pop(),
    {
        self.stack.pop();
    }

    fn local(&self, l: WasmLocal) -> (v: Option<u32>)
        requires
            self@.shaped(),
        ensures
            v == self@.local(l),
    {
        match l {
            WasmLocal::Register(r) => if r < 8 {
                Some(self.regs[r as usize])
            } else {
                None
            },
            WasmLocal::Temp(t) => match find_key(&self.temps, t) {
                Some(i) => Some(self.temps[i].1),
                None => None,
            },
        }
    }

    fn set_local(&mut self, l: WasmLocal, v: u32)
        requires
            old(self)@.shaped(),
            old(self)@.local(l) is Some,
        ensures
            final(self)@ == old(self)@.set_local(l, v),
    {
        match l {
            WasmLocal::Register(r) => {
                self.regs.set(r as usize, v);
            },
            WasmLocal::Temp(t) => {
                match find_key(&self.temps, t) {
                    Some(i) => {
                        self.temps.set(i, (t, v));
                    },
                    None => {},
                }
            },
        }
    }

    fn global(&self, g: GlobalPointer) -> (v: Option<u32>)
        ensures
            v == self@.global(g),
    {
        match g {
            GlobalPointer::Flags => Some(self.flags),
            GlobalPointer::FlagsChanged => Some(self.flags_changed),
            GlobalPointer::LastOp1 => Some(self.last_op1),
            GlobalPointer::LastResult => Some(self.last_result),
            GlobalPointer::LastOpSize => Some(self.last_op_size),
            _ => None,
        }
    }

    fn set_global(&mut self, g: GlobalPointer, v: u32)
        ensures
            final(self)@ == old(self)@.set_global(g, v),
    {
        match g {
            GlobalPointer::Flags => self.flags = v,
            GlobalPointer::FlagsChanged => self.flags_changed = v,
            GlobalPointer::LastOp1 => self.last_op1 = v,
            GlobalPointer::LastResult => self.last_result = v,
            _ => self.last_op_size = v,
        }
    }

    fn reg8(&self, r: u32) -> (v: u32)
        requires
            self@.shaped(),
            r < 8,
        ensures
            v == reg8(self@.regs, r),
    {
        if r < 4 {
            self.regs[r as usize] & 0xFF
        } else {
            (self.regs[(r - 4) as usize] >> 8u32) & 0xFF
        }
    }

    fn set_reg8(&mut self, r: u32, v: u32)
        requires
            old(self)@.shaped(),
            r < 8,
        ensures
            final(self)@ == (Machine { regs: set_reg8(old(self)@.regs, r, v), ..old(self)@ }),
    {
        if r < 4 {
            let old_value = self.regs[r as usize];
            self.regs.set(r as usize, (old_value & 0xFFFF_FF00) | (v & 0xFF));
        } else {
            let old_value = self.regs[(r - 4) as usize];
            self.regs.set((r - 4) as usize, (old_value & 0xFFFF_00FF) | ((v & 0xFF) << 8u32));
        }
    }

    fn binary(&mut self, k: Binary) -> (ok: bool)
        ensures
            ok == (crate::semantics::binary(old(self)@, k) is Some),
            ok ==> final(self)@ == crate::semantics::binary(old(self)@, k)->0,
            !ok ==> final(self)@ == old(self)@,
    {
        match (self.top(), self.second()) {
            (Some(b), Some(a)) => {
                self.pop();
                self.pop();
                self.push(binary_value_of(k, a, b));
                true
            },
            _ => false,
        }
    }

    fn unary(&mut self, k: Unary) -> (ok: bool)
        ensures
            ok == (crate::semantics::unary(old(self)@, k) is Some),
            ok ==> final(self)@ == crate::semantics::unary(old(self)@, k)->0,
            !ok ==> final(self)@ == old(self)@,
    {
        match self.top() {
            Some(a) => {
                self.pop();
                self.push(unary_value_of(k, a));
                true
            },
            None => false,
        }
    }

    /// Runs one operation: `false` when it has no meaning on the machine.
    #[verifier::rlimit(100)]
    pub fn step(&mut self, op: Op) -> (ok: bool)
        requires
            old(self)@.shaped(),
        ensures
            ok == (exec(old(self)@, op) is Some),
            ok ==> final(self)@ == exec(old(self)@, op)->0,
            final(self)@.shaped(),
    {
        proof {
            reveal(exec_access);
            reveal(exec_wide);
            reveal(exec_call);
            reveal(crate::semantics::effective_segment);
            reveal(crate::semantics::segment_offset);
        }
        match op {
            Op::ConstI32(i) => {
                self.push(i as u32);
                true
            },
            Op::ConstGlobal(g) => {
                self.stack.push(Value::Address(g));
                true
            },
            Op::GetLocal(l) => match self.local(l) {
                Some(v) => {
                    self.push(v);
                    true
                },
                None => false,
            },
            Op::SetLocal(l) => match (self.top(), self.local(l)) {
                (Some(v), Some(_)) => {
                    self.pop();
                    self.set_local(l, v);
                    true
                },
                _ => false,
            },
            Op::SetNewLocal(t) => match self.top() {
                Some(v) => match find_key(&self.temps, t) {
                    Some(_) => false,
                    None => {
                        self.pop();
                        self.temps.push((t, v));
                        true
                    },
                },
                None => false,
            },
            Op::FreeLocal(t) => match find_key(&self.temps, t) {
                Some(i) => {
                    self.temps.remove(i);
                    true
                },
                None => false,
            },
            Op::AddI32 => self.binary(Binary::Add),
            Op::SubI32 => self.binary(Binary::Sub),
            Op::AndI32 => self.binary(Binary::And),
            Op::OrI32 => self.binary(Binary::Or),
            Op::XorI32 => self.binary(Binary::Xor),
            Op::ShlI32 => self.binary(Binary::Shl),
            Op::ShrUI32 => self.binary(Binary::ShrU),
            Op::ShrSI32 => self.binary(Binary::ShrS),
            Op::NeI32 => self.binary(Binary::Ne),
            Op::EqzI32 => self.unary(Unary::Eqz),
            Op::SignExtendI8 => self.unary(Unary::SignExtend8),
            Op::SignExtendI16 => self.unary(Unary::SignExtend16),
            Op::LoadAlignedI32(g) => match self.global(g) {
                Some(v) => {
                    self.push(v);
                    true
                },
                None => false,
            },
            Op::StoreAlignedI32(offset) => match (self.top(), self.address_below_top()) {
                (Some(v), Some(g)) => {
                    if offset == 0 && self.global(g).is_some() {
                        self.pop();
                        self.pop();
                        self.set_global(g, v);
                        true
                    } else {
                        false
                    }
                },
                _ => false,
            },
            Op::GetReg8(r) => if r < 8 {
                let v = self.reg8(r);
                self.push(v);
                true
            } else {
                false
            },
            Op::GetReg16(r) => if r < 8 {
                let v = self.regs[r as usize] & 0xFFFF;
                self.push(v);
                true
            } else {
                false
            },
            Op::GetReg32(r) => if r < 8 {
                let v = self.regs[r as usize];
                self.push(v);
                true
            } else {
                false
            },
            Op::SetReg8(r) => match self.top() {
                Some(v) => if r < 8 {
                    self.pop();
                    self.set_reg8(r, v);
                    true
                } else {
                    false
                },
                None => false,
            },
            Op::SetReg16(r) => match self.top() {
                Some(v) => if r < 8 {
                    self.pop();
                    let old_value = self.regs[r as usize];
                    self.regs.set(r as usize, (old_value & 0xFFFF_0000) | (v & 0xFFFF));
                    true
                } else {
                    false
                },
                None => false,
            },
            Op::SetReg32(r) => match self.top() {
                Some(v) => if r < 8 {
                    self.pop();
                    self.regs.set(r as usize, v);
                    true
                } else {
                    false
                },
                None => false,
            },
            Op::SetReg8R(d, s) => if d < 8 && s < 8 {
                let v = self.reg8(s);
                self.set_reg8(d, v);
                true
            } else {
                false
            },
            Op::SetReg16R(d, s) => if d < 8 && s < 8 {
                let v = (self.regs[d as usize] & 0xFFFF_0000) | (self.regs[s as usize] & 0xFFFF);
                self.regs.set(d as usize, v);
                true
            } else {
                false
            },
            Op::SetReg32R(d, s) => if d < 8 && s < 8 {
                let v = self.regs[s as usize];
                self.regs.set(d as usize, v);
                true
            } else {
                false
            },
            Op::SetReg16Local(l) => match (self.top(), self.local(l)) {
                (Some(v), Some(old_value)) => {
                    self.pop();
                    self.set_local(l, (old_value & 0xFFFF_0000) | (v & 0xFFFF));
                    true
                },
                _ => false,
            },
            Op::SetFlagsBits(b) => {
                self.flags = self.flags | (b as u32);
                true
            },
            Op::ClearFlagsBits(b) => {
                self.flags = self.flags & !(b as u32);
                true
            },
            Op::SetLastOp1(l) => match self.local(l) {
                Some(v) => {
                    self.last_op1 = v;
                    true
                },
                None => false,
            },
            Op::SetLastResult(l) => match self.local(l) {
                Some(v) => {
                    self.last_result = v;
                    true
                },
                None => false,
            },
            Op::SetLastOpSize(s) => {
                self.last_op_size = s as u32;
                true
            },
            Op::SetFlagsChanged(f) => {
                self.flags_changed = f as u32;
                true
            },
            Op::ModrmResolve(_) => {
                let a = self.operand_address;
                self.push(a);
                true
            },
            Op::ModrmResolveSafeRead8(_) => {
                let v = self.load8(self.operand_address);
                self.push_or_fault(v);
                true
            },
            Op::ModrmResolveSafeRead16(_) => {
                let v = self.load16(self.operand_address);
                self.push_or_fault(v);
                true
            },
            Op::ModrmResolveSafeRead32(_) => {
                let v = self.load32(self.operand_address);
                self.push_or_fault(v);
                true
            },
            Op::SafeRead8(a) => match self.local(a) {
                Some(address) => {
                    let v = self.load8(address);
                    self.push_or_fault(v);
                    true
                },
                None => false,
            },
            Op::SafeRead16(a) => match self.local(a) {
                Some(address) => {
                    let v = self.load16(address);
                    self.push_or_fault(v);
                    true
                },
                None => false,
            },
            Op::SafeRead32(a) => match self.local(a) {
                Some(address) => {
                    let v = self.load32(address);
                    self.push_or_fault(v);
                    true
                },
                None => false,
            },
            Op::SafeWrite8(a, v) => match (self.local(a), self.local(v)) {
                (Some(address), Some(value)) => {
                    if self.load8(address).is_some() {
                        self.store8(address, value);
                    } else {
                        self.faulted = true;
                    }
                    true
                },
                _ => false,
            },
            Op::SafeWrite16(a, v) => match (self.local(a), self.local(v)) {
                (Some(address), Some(value)) => {
                    if self.load16(address).is_some() {
                        self.store16(address, value);
                    } else {
                        self.faulted = true;
                    }
                    true
                },
                _ => false,
            },
            Op::SafeWrite32(a, v) => match (self.local(a), self.local(v)) {
                (Some(address), Some(value)) => {
                    if self.load32(address).is_some() {
                        self.store32(address, value);
                    } else {
                        self.faulted = true;
                    }
                    true
                },
                _ => false,
            },
            Op::SafeReadWriteBegin(size, a) => match self.local(a) {
                Some(address) => match size {
                    BitSize::Dword => {
                        match self.load32(address) {
                            Some(v) => {
                                self.push(v);
                                self.accesses.push(address);
                            },
                            None => {
                                self.faulted = true;
                            },
                        }
                        true
                    },
                    _ => false,
                },
                None => false,
            },
            Op::SafeReadWriteEnd => match self.top() {
                Some(v) => if self.accesses.len() > 0 {
                    let address = self.accesses[self.accesses.len() - 1];
                    self.pop();
                    self.store32(address, v);
                    self.accesses.pop();
                    true
                } else {
                    false
                },
                None => false,
            },
            Op::GetCf => {
                let v: u32 = if self.carry {
                    1
                } else {
                    0
                };
                self.push(v);
                true
            },
            Op::GetZf => {
                let v: u32 = if self.zero {
                    1
                } else {
                    0
                };
                self.push(v);
                true
            },
            Op::GetSreg(r) => if r < 6 {
                let v = self.sregs[r as usize];
                self.push(v);
                true
            } else {
                false
            },
            Op::AddSegOffset(segment) => match self.top() {
                Some(v) => if segment < 6 {
                    let p = self.segment_prefix & 7;
                    let effective: u32 = if p != 0 {
                        p - 1
                    } else {
                        segment
                    };
                    let offset: u32 = if effective < 6 {
                        self.segment_offsets[effective as usize]
                    } else {
                        0
                    };
                    self.pop();
                    self.push(address_plus(v, offset));
                    true
                } else {
                    false
                },
                None => false,
            },
            Op::AdjustStackReg(n) => {
                self.adjust_stack(n);
                true
            },
            Op::Pop16 => {
                let esp = self.regs[ESP as usize];
                let base: u32 = if self.stack_size_32 {
                    esp
                } else {
                    esp & 0xFFFF
                };
                let address = address_plus(base, self.segment_offsets[SS as usize]);
                match self.load16(address) {
                    Some(v) => {
                        self.push(v);
                        self.adjust_stack(2);
                    },
                    None => {
                        self.faulted = true;
                    },
                }
                true
            },
            Op::CallFn1Ret(_) => match self.top() {
                Some(_) => {
                    self.pop();
                    self.push(self.call_value);
                    true
                },
                None => false,
            },
            Op::CallFn2Ret(_) => match (self.top(), self.second()) {
                (Some(_), Some(_)) => {
                    self.pop();
                    self.pop();
                    self.push(self.call_value);
                    true
                },
                _ => false,
            },
            Op::CallFn3Ret(_) => match (self.top(), self.second(), self.third()) {
                (Some(_), Some(_), Some(_)) => {
                    self.pop();
                    self.pop();
                    self.pop();
                    self.push(self.call_value);
                    true
                },
                _ => false,
            },
            Op::ConditionFn(_) => {
                self.push(self.condition_value);
                true
            },
            Op::Pop32s => {
                let esp = self.regs[ESP as usize];
                let base: u32 = if self.stack_size_32 {
                    esp
                } else {
                    esp & 0xFFFF
                };
                let address = address_plus(base, self.segment_offsets[SS as usize]);
                match self.load32(address) {
                    Some(v) => {
                        self.push(v);
                        self.adjust_stack(4);
                    },
                    None => {
                        self.faulted = true;
                    },
                }
                true
            },
            Op::TriggerGp(_) => {
                self.faulted = true;
                true
            },
            Op::ConstI64(v) => {
                self.stack.push(Value::Long(v as u64));
                true
            },
            Op::ExtendUnsignedI32ToI64 => match self.top() {
                Some(v) => {
                    self.pop();
                    self.stack.push(Value::Long(v as u64));
                    true
                },
                None => false,
            },
            Op::MulI64 => match (self.top_long(), self.second_long()) {
                (Some(b), Some(a)) => {
                    self.pop();
                    self.pop();
                    let p = a.wrapping_mul(b);
                    assert(p == ((a * b) % 0x1_0000_0000_0000_0000) as u64) by (nonlinear_arith)
                        requires
                            p == ((a * b) % 0x1_0000_0000_0000_0000) as u64;
                    self.stack.push(Value::Long(p));
                    true
                },
                _ => false,
            },
            Op::ShrUI64 => match (self.top_long(), self.second_long()) {
                (Some(b), Some(a)) => {
                    self.pop();
                    self.pop();
                    assert(b & 63 < 64) by (bit_vector);
                    self.stack.push(Value::Long(a >> (b & 63)));
                    true
                },
                _ => false,
            },
            Op::WrapI64ToI32 => match self.top_long() {
                Some(v) => {
                    self.pop();
                    self.push((v % 0x1_0000_0000) as u32);
                    true
                },
                None => false,
            },
            Op::SetNewLocalI64(t) => match self.top_long() {
                Some(v) => match find_key64(&self.temps64, t) {
                    Some(_) => false,
                    None => {
                        self.pop();
                        self.temps64.push((t, v));
                        true
                    },
                },
                None => false,
            },
            Op::TeeNewLocalI64(t) => match self.top_long() {
                Some(v) => match find_key64(&self.temps64, t) {
                    Some(_) => false,
                    None => {
                        self.temps64.push((t, v));
                        true
                    },
                },
                None => false,
            },
            Op::GetLocalI64(t) => match find_key64(&self.temps64, t) {
                Some(i) => {
                    let v = self.temps64[i].1;
                    self.stack.push(Value::Long(v));
                    true
                },
                None => false,
            },
            Op::FreeLocalI64(t) => match find_key64(&self.temps64, t) {
                Some(i) => {
                    self.temps64.remove(i);
                    true
                },
                None => false,
            },
            Op::ReadImm(_) => if self.immediates.len() > 0 {
                let v = self.immediates.remove(0);
                self.pending = v;
                proof {
                    assert(self.immediates@ =~= old(self).immediates@.drop_first());
                }
                true
            } else {
                false
            },
            Op::ConstPendingImm(mask, shift) => if shift < 32 {
                let v = (((self.pending as i32) & mask) >> shift) as u32;
                self.push(v);
                true
            } else {
                false
            },
            _ => false,
        }
    }

    /// Runs `code`: `false` when an operation has no meaning on the machine.  After a
    /// fault the rest of the code does not run.
    pub fn execute(&mut self, code: &Vec<Op>) -> (ok: bool)
        requires
            old(self)@.shaped(),
        ensures
            ok == (run(old(self)@, code@) is Some),
            ok ==> final(self)@ == run(old(self)@, code@)->0,
    {
        let mut i: usize = 0;
        while i < code.len()
            invariant
                i <= code@.len(),
                self@.shaped(),
                run(old(self)@, code@) == run_from(self@, code@, i as nat),
            decreases code@.len() - i,
        {
            if self.faulted {
                return true;
            }
            let ok = self.step(code[i]);
            if !ok {
                return false;
            }
            i = i + 1;
        }
        true
    }

    /// Runs `code`, which may hold `if` blocks: `false` when an operation has no meaning
    /// on the machine or a block is not closed.  After a fault the rest of the code does
    /// not run; a part of a block that does not run is passed over.
    pub fn execute_blocks(&mut self, code: &Vec<Op>) -> (ok: bool)
        requires
            old(self)@.shaped(),
        ensures
            ok == (run_blocks(old(self)@, code@) is Some),
            ok ==> final(self)@ == run_blocks(old(self)@, code@)->0,
    {
        let mut blocks: Vec<(bool, bool)> = Vec::new();
        let mut i: usize = 0;
        while i < code.len()
            invariant
                i <= code@.len(),
                self@.shaped(),
                run_blocks_from(old(self)@, code@, 0, Seq::empty()) == run_blocks_from(self@, code@, i as nat, blocks@),
            decreases code@.len() - i,
        {
            if self.faulted {
                i = code.len();
                continue;
            }
            let op = code[i];
            if is_block(op) {
                let ghost before = self@;
                let ghost bl = blocks@;
                match op {
                    Op::IfVoid | Op::IfI32 => {
                        if is_active(&blocks) {
                            match self.top() {
                                Some(c) => {
                                    self.pop();
                                    blocks.push((true, c != 0));
                                },
                                None => {
                                    return false;
                                },
                            }
                        } else {
                            blocks.push((false, false));
                        }
                    },
                    Op::Else => {
                        if blocks.len() == 0 {
                            return false;
                        }
                        let (outer, runs) = blocks[blocks.len() - 1];
                        blocks.pop();
                        blocks.push((outer, outer && !runs));
                        proof {
                            assert(blocks@ =~= bl.drop_last().push((bl.last().0, bl.last().0 && !bl.last().1)));
                        }
                    },
                    _ => {
                        if blocks.len() == 0 {
                            return false;
                        }
                        blocks.pop();
                    },
                }
                proof {
                    assert(exec_block(before, bl, op) == Some((self@, blocks@)));
                }
            } else if is_active(&blocks) {
                let ok = self.step(op);
                if !ok {
                    return false;
                }
            }
            i = i + 1;
        }
        proof {
            assert(run_blocks_from(self@, code@, i as nat, blocks@) == Some((self@, blocks@)));
        }
        blocks.len() == 0 || self.faulted
    }
}

} // verus!
