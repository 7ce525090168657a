//! The recorder that generators write into, and the generation context.

use vstd::prelude::*;
use crate::op::{Op, WasmLocal, WasmLocalI64, BitSize};
use crate::frame::{
    Frame, Ctrl, CtrlKind, shifted, frame_of, step, settled_by, base, usable, block_complete,
    lemma_frame_of_push, lemma_frame_of_empty,
};

verus! {

/// Temporaries are numbered from zero; this bound keeps the numbering within `u32`.
pub const LOCAL_ID_LIMIT: u32 = 0x1000_0000;

/// The operations recorded so far for one instruction, and the number of the next
/// temporary local.
pub struct WasmBuilder {
    pub code: Vec<Op>,
    pub next_local: u32,
}

/// Pops and pushes of an operation whose only effect on the frame is on the stack height.
pub open spec fn simple_effect(op: Op) -> Option<(int, int)> {
    match op {
        Op::ConstI32(_) | Op::ConstI64(_) | Op::ConstGlobal(_) | Op::LoadAlignedI32(_)
        | Op::LoadU8(_) | Op::GetReg8(_) | Op::GetReg16(_) | Op::GetReg32(_) | Op::GetSreg(_)
        | Op::ModrmResolve(_) | Op::ModrmResolveSafeRead8(_) | Op::ModrmResolveSafeRead16(_)
        | Op::ModrmResolveSafeRead32(_) | Op::ModrmResolveSafeRead64(_) | Op::Fn0ConstRet(_)
        | Op::Pop16 | Op::Pop32s | Op::GetCf | Op::GetZf | Op::FpuLoadM32(_) | Op::FpuLoadM64(_)
        | Op::FpuGetSti(_) | Op::GetRealEip | Op::ConditionFn(_) | Op::ConstPendingImm(_, _)
        | Op::GetLocal(_) | Op::SafeRead8(_) | Op::SafeRead16(_) | Op::SafeRead32(_)
        | Op::SafeRead64(_) | Op::GetLocalI64(_) => Some((0, 1)),
        Op::AddI32 | Op::SubI32 | Op::AndI32 | Op::OrI32 | Op::XorI32 | Op::ShlI32 | Op::ShrUI32
        | Op::ShrSI32 | Op::NeI32 | Op::MulI64 | Op::ShrUI64 | Op::CallFn2Ret(_) => Some((2, 1)),
        Op::EqzI32 | Op::ExtendUnsignedI32ToI64 | Op::WrapI64ToI32 | Op::LoadAlignedU16FromStack(_)
        | Op::LoadAlignedI64FromStack(_) | Op::DemoteF64ToF32 | Op::ReinterpretF32AsI32
        | Op::ReinterpretF64AsI64 | Op::ConvertI32ToF64 | Op::ConvertI64ToF64 | Op::AddSegOffset(_)
        | Op::CallFn1Ret(_) | Op::CallFn1F64RetI32(_) | Op::CallFn1F64RetI64(_) | Op::SignExtendI8
        | Op::SignExtendI16 | Op::AddCsOffset => Some((1, 1)),
        Op::StoreAlignedI32(_) | Op::StoreAlignedU16(_) | Op::StoreAlignedI64(_) | Op::CallFn2(_)
        | Op::CallFn2I32F64(_) | Op::CallFn2I64I32(_) | Op::CallStringFn2(_, _, _) => Some((2, 0)),
        Op::CallFn3Ret(_) => Some((3, 1)),
        Op::CallFn3(_) => Some((3, 0)),
        Op::SetReg8(_) | Op::SetReg16(_) | Op::SetReg32(_) | Op::CallFn1(_) | Op::CallFn1F64(_)
        | Op::CallStringFn1(_, _, _) | Op::SetLocal(_) | Op::SetReg16Local(_) => Some((1, 0)),
        Op::SetReg8R(_, _) | Op::SetReg16R(_, _) | Op::SetReg32R(_, _)
        | Op::ModrmResolveSafeRead128(_, _) | Op::ModrmSkip(_) | Op::Fn0Const(_)
        | Op::Fn1Const(_, _) | Op::AdjustStackReg(_) | Op::SetFlagsBits(_) | Op::ClearFlagsBits(_)
        | Op::SetLastOpSize(_) | Op::SetFlagsChanged(_) | Op::JmpRel16(_) | Op::RelativeJump(_)
        | Op::Leave(_) | Op::MoveRegistersFromLocalsToMemory | Op::MoveRegistersFromMemoryToLocals
        | Op::SetPreviousEipOffsetFromEipWithLowBits(_) | Op::DebugTrackJitExit(_)
        | Op::SetEipToAfterCurrentInstruction | Op::ReadImm(_) | Op::Dispatch(_) | Op::SetLastOp1(_) | Op::SetLastResult(_)
        | Op::Push16(_) | Op::Push32(_) | Op::SafeWrite8(_, _) | Op::SafeWrite16(_, _)
        | Op::SafeWrite32(_, _) | Op::SafeWrite64(_, _) | Op::SafeWrite128(_, _, _)
        | Op::SafeRead128(_, _) => Some((0, 0)),
        _ => None,
    }
}

/// Values that a simple operation pops.
pub open spec fn pops_of(op: Op) -> int {
    match simple_effect(op) {
        Some(e) => e.0,
        None => 0,
    }
}

/// Values that a simple operation pushes.
pub open spec fn pushes_of(op: Op) -> int {
    match simple_effect(op) {
        Some(e) => e.1,
        None => 0,
    }
}

/// The locals that an operation reads are live.
pub open spec fn reads_ok(f: Frame, op: Op) -> bool {
    match op {
        Op::GetLocal(l) | Op::SafeRead8(l) | Op::SafeRead16(l) | Op::SafeRead32(l) | Op::SetLocal(l)
        | Op::SafeRead64(l) | Op::SafeRead128(l, _) | Op::SetReg16Local(l) | Op::SetLastOp1(l) | Op::SetLastResult(l) | Op::Push16(l)
        | Op::Push32(l) => usable(f, l),
        Op::SafeWrite8(a, v) | Op::SafeWrite16(a, v) | Op::SafeWrite32(a, v) => usable(f, a)
            && usable(f, v),
        Op::SafeWrite64(a, v) => usable(f, a) && f.live64.contains(v),
        Op::SafeWrite128(a, lo, hi) => usable(f, a) && f.live64.contains(lo) && f.live64.contains(hi),
        Op::GetLocalI64(t) => f.live64.contains(t),
        _ => true,
    }
}

/// Where the code stands, `op` may be appended: it finds its operands and locals.
pub open spec fn can_emit(f: Frame, op: Op) -> bool {
    &&& f.valid
    &&& !f.unreachable
    &&& simple_effect(op) is Some
    &&& reads_ok(f, op)
    &&& f.depth - pops_of(op) >= base(f)
}

pub proof fn lemma_step_simple(f: Frame, op: Op)
    requires
        can_emit(f, op),
    ensures
        step(f, op) == shifted(f, pushes_of(op) - pops_of(op)),
{
    reveal(step);
}

impl WasmBuilder {
    pub open spec fn frame(&self) -> Frame {
        frame_of(self.code@)
    }

    /// Every live temporary was numbered before `next_local`.
    pub open spec fn fresh(&self) -> bool {
        &&& forall|t: u32| self.frame().live.contains(t) ==> t < self.next_local
        &&& forall|t: u32| self.frame().live64.contains(t) ==> t < self.next_local
    }

    /// The recorded code is well formed.
    pub open spec fn wf(&self) -> bool {
        &&& self.frame().valid
        &&& self.fresh()
        &&& self.frame().depth >= base(self.frame())
    }

    /// A builder with no code.
    pub fn new() -> (b: WasmBuilder)
        ensures
            b.code@ == Seq::<Op>::empty(),
            b.next_local == 0,
            b.wf(),
            !b.frame().unreachable,
            b.frame().ctrl.len() == 0,
    {
        proof {
            lemma_frame_of_empty();
        }
        WasmBuilder { code: Vec::new(), next_local: 0 }
    }

    fn record(&mut self, op: Op)
        ensures
            final(self).code@ == old(self).code@.push(op),
            final(self).next_local == old(self).next_local,
            final(self).frame() == step(old(self).frame(), op),
    {
        proof {
            lemma_frame_of_push(self.code@, op);
        }
        self.code.push(op);
    }

    /// Records an operation whose only effect is on the stack height.
    pub fn emit(&mut self, op: Op)
        requires
            can_emit(old(self).frame(), op),
        ensures
            final(self).code@ == old(self).code@.push(op),
            final(self).next_local == old(self).next_local,
            final(self).frame() == shifted(old(self).frame(), pushes_of(op) - pops_of(op)),
    {
        proof {
            lemma_step_simple(self.frame(), op);
        }
        self.record(op);
    }

    /// `set_new_local`: pops the top of the stack into a new temporary and returns it.
    pub fn set_new_local(&mut self) -> (l: WasmLocal)
        requires
            old(self).fresh(),
            old(self).next_local < u32::MAX,
            old(self).frame().valid,
            !old(self).frame().unreachable,
            old(self).frame().depth - 1 >= base(old(self).frame()),
        ensures
            l == WasmLocal::Temp(old(self).next_local),
            final(self).code@ == old(self).code@.push(Op::SetNewLocal(old(self).next_local)),
            final(self).next_local == old(self).next_local + 1,
            final(self).frame() == (Frame {
                depth: old(self).frame().depth - 1,
                live: old(self).frame().live.insert(old(self).next_local),
                ..old(self).frame()
            }),
            !old(self).frame().live.contains(old(self).next_local),
            final(self).fresh(),
    {
        proof {
            reveal(step);
        }
        let t = self.next_local;
        self.record(Op::SetNewLocal(t));
        self.next_local = t + 1;
        WasmLocal::Temp(t)
    }

    /// `set_new_local_i64`.
    pub fn set_new_local_i64(&mut self) -> (l: WasmLocalI64)
        requires
            old(self).fresh(),
            old(self).next_local < u32::MAX,
            old(self).frame().valid,
            !old(self).frame().unreachable,
            old(self).frame().depth - 1 >= base(old(self).frame()),
        ensures
            l.index == old(self).next_local,
            final(self).code@ == old(self).code@.push(Op::SetNewLocalI64(old(self).next_local)),
            final(self).next_local == old(self).next_local + 1,
            final(self).frame() == (Frame {
                depth: old(self).frame().depth - 1,
                live64: old(self).frame().live64.insert(old(self).next_local),
                ..old(self).frame()
            }),
            !old(self).frame().live64.contains(old(self).next_local),
            final(self).fresh(),
    {
        proof {
            reveal(step);
        }
        let t = self.next_local;
        self.record(Op::SetNewLocalI64(t));
        self.next_local = t + 1;
        WasmLocalI64 { index: t }
    }

    /// `tee_new_local_i64`: copies the top of the stack into a new temporary.
    pub fn tee_new_local_i64(&mut self) -> (l: WasmLocalI64)
        requires
            old(self).fresh(),
            old(self).next_local < u32::MAX,
            old(self).frame().valid,
            !old(self).frame().unreachable,
            old(self).frame().depth - 1 >= base(old(self).frame()),
        ensures
            l.index == old(self).next_local,
            final(self).code@ == old(self).code@.push(Op::TeeNewLocalI64(old(self).next_local)),
            final(self).next_local == old(self).next_local + 1,
            final(self).frame() == (Frame {
                live64: old(self).frame().live64.insert(old(self).next_local),
                ..old(self).frame()
            }),
            !old(self).frame().live64.contains(old(self).next_local),
            final(self).fresh(),
    {
        proof {
            reveal(step);
        }
        let t = self.next_local;
        self.record(Op::TeeNewLocalI64(t));
        self.next_local = t + 1;
        WasmLocalI64 { index: t }
    }

    /// `gen_get_reg8_or_alias_to_reg32`: a temporary that holds the 8-bit register `r`.
    pub fn alias_reg8(&mut self, r: u32) -> (l: WasmLocal)
        requires
            old(self).fresh(),
            old(self).next_local < u32::MAX,
            old(self).frame().valid,
            r < 8,
        ensures
            l == WasmLocal::Temp(old(self).next_local),
            final(self).code@ == old(self).code@.push(Op::AliasReg8(r, old(self).next_local)),
            final(self).next_local == old(self).next_local + 1,
            final(self).frame() == (Frame {
                live: old(self).frame().live.insert(old(self).next_local),
                ..old(self).frame()
            }),
            !old(self).frame().live.contains(old(self).next_local),
            final(self).fresh(),
    {
        proof {
            reveal(step);
        }
        let t = self.next_local;
        self.record(Op::AliasReg8(r, t));
        self.next_local = t + 1;
        WasmLocal::Temp(t)
    }

    /// `free_local`: releases a temporary.
    pub fn free_local(&mut self, l: WasmLocal)
        requires
            old(self).frame().valid,
            l is Temp,
            old(self).frame().live.contains(l->Temp_0),
        ensures
            final(self).code@ == old(self).code@.push(Op::FreeLocal(l->Temp_0)),
            final(self).next_local == old(self).next_local,
            final(self).frame() == (Frame {
                live: old(self).frame().live.remove(l->Temp_0),
                ..old(self).frame()
            }),
    {
        proof {
            reveal(step);
        }
        match l {
            WasmLocal::Temp(t) => self.record(Op::FreeLocal(t)),
            WasmLocal::Register(_) => {},
        }
    }

    /// `free_local_i64`.
    pub fn free_local_i64(&mut self, l: WasmLocalI64)
        requires
            old(self).frame().valid,
            old(self).frame().live64.contains(l.index),
        ensures
            final(self).code@ == old(self).code@.push(Op::FreeLocalI64(l.index)),
            final(self).next_local == old(self).next_local,
            final(self).frame() == (Frame {
                live64: old(self).frame().live64.remove(l.index),
                ..old(self).frame()
            }),
    {
        proof {
            reveal(step);
        }
        self.record(Op::FreeLocalI64(l.index));
    }

    /// `gen_free_reg8_or_alias`.
    pub fn free_reg8_alias(&mut self, r: u32, l: WasmLocal)
        requires
            old(self).frame().valid,
            l is Temp,
            old(self).frame().live.contains(l->Temp_0),
        ensures
            final(self).code@ == old(self).code@.push(Op::FreeReg8Alias(r, l->Temp_0)),
            final(self).next_local == old(self).next_local,
            final(self).frame() == (Frame {
                live: old(self).frame().live.remove(l->Temp_0),
                ..old(self).frame()
            }),
    {
        proof {
            reveal(step);
        }
        match l {
            WasmLocal::Temp(t) => self.record(Op::FreeReg8Alias(r, t)),
            WasmLocal::Register(_) => {},
        }
    }

    /// `gen_absolute_indirect_jump`, which consumes the temporary holding the target.
    pub fn absolute_indirect_jump(&mut self, l: WasmLocal)
        requires
            old(self).frame().valid,
            l is Temp,
            old(self).frame().live.contains(l->Temp_0),
        ensures
            final(self).code@ == old(self).code@.push(Op::AbsoluteIndirectJump(l->Temp_0)),
            final(self).next_local == old(self).next_local,
            final(self).frame() == (Frame {
                live: old(self).frame().live.remove(l->Temp_0),
                ..old(self).frame()
            }),
    {
        proof {
            reveal(step);
        }
        match l {
            WasmLocal::Temp(t) => self.record(Op::AbsoluteIndirectJump(t)),
            WasmLocal::Register(_) => {},
        }
    }

    /// `if_void`: pops a condition and opens a block that leaves nothing.
    pub fn if_void(&mut self)
        requires
            old(self).frame().valid,
            !old(self).frame().unreachable,
            old(self).frame().depth - 1 >= base(old(self).frame()),
        ensures
            final(self).code@ == old(self).code@.push(Op::IfVoid),
            final(self).next_local == old(self).next_local,
            final(self).frame() == (Frame {
                depth: old(self).frame().depth - 1,
                ctrl: old(self).frame().ctrl.push(
                    Ctrl {
                        kind: CtrlKind::Then,
                        entry: old(self).frame().depth - 1,
                        arity: 0,
                        outer_unreachable: false,
                    },
                ),
                ..old(self).frame()
            }),
    {
        proof {
            reveal(step);
        }
        self.record(Op::IfVoid);
    }

    /// `if_i32`: pops a condition and opens a block that leaves one value.
    pub fn if_i32(&mut self)
        requires
            old(self).frame().valid,
            !old(self).frame().unreachable,
            old(self).frame().depth - 1 >= base(old(self).frame()),
        ensures
            final(self).code@ == old(self).code@.push(Op::IfI32),
            final(self).next_local == old(self).next_local,
            final(self).frame() == (Frame {
                depth: old(self).frame().depth - 1,
                ctrl: old(self).frame().ctrl.push(
                    Ctrl {
                        kind: CtrlKind::Then,
                        entry: old(self).frame().depth - 1,
                        arity: 1,
                        outer_unreachable: false,
                    },
                ),
                ..old(self).frame()
            }),
    {
        proof {
            reveal(step);
        }
        self.record(Op::IfI32);
    }

    /// `else_`.
    pub fn else_(&mut self)
        requires
            old(self).frame().valid,
            old(self).frame().ctrl.len() > 0,
            old(self).frame().ctrl.last().kind == CtrlKind::Then,
            block_complete(old(self).frame()),
        ensures
            final(self).code@ == old(self).code@.push(Op::Else),
            final(self).next_local == old(self).next_local,
            final(self).frame() == (Frame {
                depth: old(self).frame().ctrl.last().entry,
                unreachable: false,
                ctrl: old(self).frame().ctrl.drop_last().push(
                    Ctrl { kind: CtrlKind::Else, ..old(self).frame().ctrl.last() },
                ),
                ..old(self).frame()
            }),
    {
        proof {
            reveal(step);
        }
        self.record(Op::Else);
    }

    /// `block_end`: closes the innermost `if` block.
    pub fn block_end(&mut self)
        requires
            old(self).frame().valid,
            old(self).frame().ctrl.len() > 0,
            old(self).frame().ctrl.last().kind == CtrlKind::Else || (
            old(self).frame().ctrl.last().kind == CtrlKind::Then
                && old(self).frame().ctrl.last().arity == 0),
            block_complete(old(self).frame()),
        ensures
            final(self).code@ == old(self).code@.push(Op::BlockEnd),
            final(self).next_local == old(self).next_local,
            final(self).frame() == (Frame {
                depth: old(self).frame().ctrl.last().entry + old(self).frame().ctrl.last().arity,
                unreachable: old(self).frame().ctrl.last().outer_unreachable,
                ctrl: old(self).frame().ctrl.drop_last(),
                ..old(self).frame()
            }),
    {
        proof {
            reveal(step);
        }
        self.record(Op::BlockEnd);
    }

    /// Opens the body of `gen_safe_read_write`: the value read is on the stack.
    pub fn read_write_begin(&mut self, size: BitSize, address: WasmLocal)
        requires
            old(self).frame().valid,
            !old(self).frame().unreachable,
            usable(old(self).frame(), address),
        ensures
            final(self).code@ == old(self).code@.push(Op::SafeReadWriteBegin(size, address)),
            final(self).next_local == old(self).next_local,
            final(self).frame() == (Frame {
                depth: old(self).frame().depth + 1,
                ctrl: old(self).frame().ctrl.push(
                    Ctrl {
                        kind: CtrlKind::ReadWrite,
                        entry: old(self).frame().depth,
                        arity: 1,
                        outer_unreachable: false,
                    },
                ),
                ..old(self).frame()
            }),
    {
        proof {
            reveal(step);
        }
        self.record(Op::SafeReadWriteBegin(size, address));
    }

    /// Closes the body of `gen_safe_read_write`: the value left is written back.
    pub fn read_write_end(&mut self)
        requires
            old(self).frame().valid,
            old(self).frame().ctrl.len() > 0,
            old(self).frame().ctrl.last().kind == CtrlKind::ReadWrite,
            block_complete(old(self).frame()),
        ensures
            final(self).code@ == old(self).code@.push(Op::SafeReadWriteEnd),
            final(self).next_local == old(self).next_local,
            final(self).frame() == (Frame {
                depth: old(self).frame().ctrl.last().entry,
                unreachable: old(self).frame().ctrl.last().outer_unreachable,
                ctrl: old(self).frame().ctrl.drop_last(),
                ..old(self).frame()
            }),
    {
        proof {
            reveal(step);
        }
        self.record(Op::SafeReadWriteEnd);
    }

    /// Records an operation that leaves the generated function: `return_` or a
    /// `gen_trigger_*` helper.
    pub fn diverge(&mut self, op: Op)
        requires
            old(self).frame().valid,
            op is Return || op is TriggerUd || op is TriggerDe || op is TriggerGp,
        ensures
            final(self).code@ == old(self).code@.push(op),
            final(self).next_local == old(self).next_local,
            final(self).frame() == (Frame { unreachable: true, ..old(self).frame() }),
    {
        proof {
            reveal(step);
        }
        self.record(op);
    }
}

/// What the generators read of the CPU: where the instruction stream stands, the
/// prefixes decoded so far, and the address size those prefixes select.
#[derive(Clone, Copy, PartialEq, Eq, Debug)]
pub struct CpuContext {
    pub eip: u32,
    pub prefixes: u32,
    pub address_size_32: bool,
}

impl CpuContext {
    pub fn asize_32(&self) -> (b: bool)
        ensures
            b == self.address_size_32,
    {
        self.address_size_32
    }
}

/// The state of code generation for one instruction.
pub struct JitContext {
    pub cpu: CpuContext,
    pub builder: WasmBuilder,
    pub start_of_current_instruction: u32,
}

impl JitContext {
    pub fn new(cpu: CpuContext, start_of_current_instruction: u32) -> (ctx: JitContext)
        ensures
            ctx.cpu == cpu,
            ctx.start_of_current_instruction == start_of_current_instruction,
            ctx.builder.code@ == Seq::<Op>::empty(),
            ctx.builder.next_local == 0,
            ctx.builder.wf(),
    {
        JitContext { cpu, builder: WasmBuilder::new(), start_of_current_instruction }
    }
}

/// `post` is `pre` with `code` appended, `temps` temporaries numbered, and the decoder
/// state untouched.
pub open spec fn emits(pre: JitContext, post: JitContext, code: Seq<Op>, temps: nat) -> bool {
    &&& post.builder.code@ == pre.builder.code@ + code
    &&& post.builder.next_local == pre.builder.next_local + temps
    &&& post.cpu == pre.cpu
    &&& post.start_of_current_instruction == pre.start_of_current_instruction
}

/// The code appended between `pre` and `post` changed the stack height by `delta` and
/// otherwise left the frame as it found it, unless it ended in a jump out of the
/// generated function; and the new builder is well formed.
pub open spec fn balanced_by(pre: WasmBuilder, post: WasmBuilder, delta: int) -> bool {
    &&& settled_by(pre.frame(), post.frame(), delta)
    &&& post.wf()
}

/// The code appended between `pre` and `post` changed the stack height by `delta` and
/// nothing else in the frame.
pub open spec fn restores_by(pre: WasmBuilder, post: WasmBuilder, delta: int) -> bool {
    &&& post.frame() == (Frame { depth: pre.frame().depth + delta, ..pre.frame() })
    &&& post.wf()
}

pub open spec fn builder_emits(pre: WasmBuilder, post: WasmBuilder, code: Seq<Op>, temps: nat) -> bool {
    &&& post.code@ == pre.code@ + code
    &&& post.next_local == pre.next_local + temps
}

/// Code can be appended at the current point, and at least `room` more temporaries
/// beyond the usual limit can be numbered.
pub open spec fn ready(b: WasmBuilder, room: int) -> bool {
    &&& b.wf()
    &&& !b.frame().unreachable
    &&& b.next_local <= LOCAL_ID_LIMIT + room
}

} // verus!
