//! A validator for recorded code: the operand-stack height, the nesting of blocks and
//! the set of live temporaries after each operation.
//!
//! [`frame_of`] runs the validator over a whole sequence.  A sequence is well formed when
//! its frame is valid; the generators promise that the code they append leaves the
//! frame as they found it (see [`settled`]).

use vstd::prelude::*;
use crate::op::{Op, WasmLocal};

verus! {

/// The kind of an open block.
#[derive(Clone, Copy, PartialEq, Eq, Debug)]
pub enum CtrlKind {
    Then,
    Else,
    ReadWrite,
}

/// An open block: its kind, the stack height when it was opened, the number of values
/// it leaves behind, and whether the code around it was unreachable.
pub struct Ctrl {
    pub kind: CtrlKind,
    pub entry: int,
    pub arity: int,
    pub outer_unreachable: bool,
}

#[verifier::ext_equal]
pub struct Frame {
    pub valid: bool,
    pub depth: int,
    pub unreachable: bool,
    pub ctrl: Seq<Ctrl>,
    pub live: Set<u32>,
    pub live64: Set<u32>,
}

pub open spec fn initial_frame() -> Frame {
    Frame {
        valid: true,
        depth: 0,
        unreachable: false,
        ctrl: Seq::empty(),
        live: Set::empty(),
        live64: Set::empty(),
    }
}

/// The frame with the stack height changed by `delta`.
pub open spec fn shifted(f: Frame, delta: int) -> Frame {
    Frame { depth: f.depth + delta, ..f }
}

pub open spec fn invalid(f: Frame) -> Frame {
    Frame { valid: false, ..f }
}

/// Lowest stack height the current block may pop down to.
pub open spec fn base(f: Frame) -> int {
    if f.ctrl.len() == 0 {
        0
    } else {
        f.ctrl.last().entry
    }
}

/// Pops `pops` values and pushes `pushes` values.  After a `return` the stack is
/// polymorphic: popping cannot fail.
pub open spec fn pop_push(f: Frame, pops: int, pushes: int) -> Frame {
    if !f.valid {
        f
    } else if f.unreachable {
        let d = if f.depth - pops < base(f) {
            base(f)
        } else {
            f.depth - pops
        };
        Frame { depth: d + pushes, ..f }
    } else if f.depth - pops < base(f) {
        invalid(f)
    } else {
        Frame { depth: f.depth - pops + pushes, ..f }
    }
}

pub open spec fn usable(f: Frame, l: WasmLocal) -> bool {
    match l {
        WasmLocal::Register(r) => r < 8,
        WasmLocal::Temp(t) => f.live.contains(t),
    }
}

pub open spec fn use_then(f: Frame, l: WasmLocal, pops: int, pushes: int) -> Frame {
    if usable(f, l) {
        pop_push(f, pops, pushes)
    } else {
        invalid(f)
    }
}

pub open spec fn alloc32(f: Frame, t: u32) -> Frame {
    if f.live.contains(t) {
        invalid(f)
    } else {
        Frame { live: f.live.insert(t), ..f }
    }
}

pub open spec fn release(f: Frame, t: u32) -> Frame {
    if f.live.contains(t) {
        Frame { live: f.live.remove(t), ..f }
    } else {
        invalid(f)
    }
}

pub open spec fn alloc64(f: Frame, t: u32) -> Frame {
    if f.live64.contains(t) {
        invalid(f)
    } else {
        Frame { live64: f.live64.insert(t), ..f }
    }
}

pub open spec fn release64(f: Frame, t: u32) -> Frame {
    if f.live64.contains(t) {
        Frame { live64: f.live64.remove(t), ..f }
    } else {
        invalid(f)
    }
}

pub open spec fn open_block(f: Frame, kind: CtrlKind, arity: int) -> Frame {
    if !f.valid {
        f
    } else {
        Frame {
            ctrl: f.ctrl.push(
                Ctrl { kind, entry: f.depth, arity, outer_unreachable: f.unreachable },
            ),
            unreachable: false,
            ..f
        }
    }
}

pub open spec fn block_complete(f: Frame) -> bool {
    f.unreachable || f.depth == f.ctrl.last().entry + f.ctrl.last().arity
}

pub open spec fn else_block(f: Frame) -> Frame {
    if f.valid && f.ctrl.len() > 0 && f.ctrl.last().kind == CtrlKind::Then && block_complete(
        f,
    ) {
        let c = f.ctrl.last();
        Frame {
            depth: c.entry,
            unreachable: false,
            ctrl: f.ctrl.drop_last().push(Ctrl { kind: CtrlKind::Else, ..c }),
            ..f
        }
    } else {
        invalid(f)
    }
}

pub open spec fn end_block(f: Frame) -> Frame {
    if f.valid && f.ctrl.len() > 0 && (f.ctrl.last().kind == CtrlKind::Else || (
    f.ctrl.last().kind == CtrlKind::Then && f.ctrl.last().arity == 0)) && block_complete(f) {
        let c = f.ctrl.last();
        Frame {
            depth: c.entry + c.arity,
            unreachable: c.outer_unreachable,
            ctrl: f.ctrl.drop_last(),
            ..f
        }
    } else {
        invalid(f)
    }
}

pub open spec fn end_read_write(f: Frame) -> Frame {
    if f.valid && f.ctrl.len() > 0 && f.ctrl.last().kind == CtrlKind::ReadWrite
        && block_complete(f) {
        let c = f.ctrl.last();
        Frame {
            depth: c.entry,
            unreachable: c.outer_unreachable,
            ctrl: f.ctrl.drop_last(),
            ..f
        }
    } else {
        invalid(f)
    }
}

pub open spec fn diverge(f: Frame) -> Frame {
    Frame { unreachable: true, ..f }
}

/// The effect of one operation.
#[verifier::opaque]
pub open spec fn step(f: Frame, op: Op) -> Frame {
    if !f.valid {
        f
    } else {
        match op {
            Op::ConstI32(_) | Op::ConstI64(_) | Op::ConstGlobal(_) | Op::LoadAlignedI32(_)
            | Op::LoadU8(_) | Op::GetReg8(_) | Op::GetReg16(_) | Op::GetReg32(_)
            | Op::GetSreg(_) | Op::ModrmResolve(_) | Op::ModrmResolveSafeRead8(_)
            | Op::ModrmResolveSafeRead16(_) | Op::ModrmResolveSafeRead32(_)
            | Op::ModrmResolveSafeRead64(_) | Op::Fn0ConstRet(_) | Op::Pop16 | Op::Pop32s
            | Op::GetCf | Op::GetZf | Op::FpuLoadM32(_) | Op::FpuLoadM64(_) | Op::FpuGetSti(_)
            | Op::GetRealEip | Op::ConditionFn(_) | Op::ConstPendingImm(_, _) => pop_push(
                f,
                0,
                1,
            ),
            Op::AddI32 | Op::SubI32 | Op::AndI32 | Op::OrI32 | Op::XorI32 | Op::ShlI32
            | Op::ShrUI32 | Op::ShrSI32 | Op::NeI32 | Op::MulI64 | Op::ShrUI64
            | Op::CallFn2Ret(_) => pop_push(f, 2, 1),
            Op::EqzI32 | Op::ExtendUnsignedI32ToI64 | Op::WrapI64ToI32
            | Op::LoadAlignedU16FromStack(_) | Op::LoadAlignedI64FromStack(_)
            | Op::DemoteF64ToF32 | Op::ReinterpretF32AsI32 | Op::ReinterpretF64AsI64
            | Op::ConvertI32ToF64 | Op::ConvertI64ToF64 | Op::AddSegOffset(_) | Op::CallFn1Ret(_)
            | Op::CallFn1F64RetI32(_) | Op::CallFn1F64RetI64(_) | Op::SignExtendI8
            | Op::SignExtendI16 | Op::AddCsOffset => pop_push(f, 1, 1),
            Op::StoreAlignedI32(_) | Op::StoreAlignedU16(_) | Op::StoreAlignedI64(_)
            | Op::CallFn2(_) | Op::CallFn2I32F64(_) | Op::CallFn2I64I32(_)
            | Op::CallStringFn2(_, _, _) => pop_push(f, 2, 0),
            Op::CallFn3Ret(_) => pop_push(f, 3, 1),
            Op::CallFn3(_) => pop_push(f, 3, 0),
            Op::SetReg8(r) | Op::SetReg16(r) | Op::SetReg32(r) => pop_push(f, 1, 0),
            Op::CallFn1(_) | Op::CallFn1F64(_) | Op::CallStringFn1(_, _, _) => pop_push(
                f,
                1,
                0,
            ),
            Op::SetReg8R(_, _) | Op::SetReg16R(_, _) | Op::SetReg32R(_, _)
            | Op::ModrmResolveSafeRead128(_, _) | Op::ModrmSkip(_) | Op::Fn0Const(_)
            | Op::Fn1Const(_, _) | Op::AdjustStackReg(_) | Op::SetFlagsBits(_)
            | Op::ClearFlagsBits(_) | Op::SetLastOpSize(_) | Op::SetFlagsChanged(_)
            | Op::JmpRel16(_) | Op::RelativeJump(_) | Op::Leave(_)
            | Op::MoveRegistersFromLocalsToMemory | Op::MoveRegistersFromMemoryToLocals
            | Op::SetPreviousEipOffsetFromEipWithLowBits(_) | Op::DebugTrackJitExit(_)
            | Op::SetEipToAfterCurrentInstruction | Op::ReadImm(_) | Op::Dispatch(_) => f,
            Op::SafeRead128(l, _) => use_then(f, l, 0, 0),
            Op::GetLocal(l) | Op::SafeRead8(l) | Op::SafeRead16(l) | Op::SafeRead32(l)
            | Op::SafeRead64(l) => use_then(
                f,
                l,
                0,
                1,
            ),
            Op::SetLocal(l) | Op::SetReg16Local(l) => use_then(f, l, 1, 0),
            Op::SetLastOp1(l) | Op::SetLastResult(l) | Op::Push16(l) | Op::Push32(l) => use_then(
                f,
                l,
                0,
                0,
            ),
            Op::SafeWrite8(a, v) | Op::SafeWrite16(a, v) | Op::SafeWrite32(a, v) => if usable(
                f,
                a,
            ) && usable(f, v) {
                f
            } else {
                invalid(f)
            },
            Op::SafeWrite64(a, v) => if usable(f, a) && f.live64.contains(v) {
                f
            } else {
                invalid(f)
            },
            Op::SafeWrite128(a, lo, hi) => if usable(f, a) && f.live64.contains(lo)
                && f.live64.contains(hi) {
                f
            } else {
                invalid(f)
            },
            Op::SetNewLocal(t) => alloc32(pop_push(f, 1, 0), t),
            Op::SetNewLocalI64(t) => alloc64(pop_push(f, 1, 0), t),
            Op::TeeNewLocalI64(t) => alloc64(pop_push(f, 1, 1), t),
            Op::GetLocalI64(t) => if f.live64.contains(t) {
                pop_push(f, 0, 1)
            } else {
                invalid(f)
            },
            Op::FreeLocal(t) => release(f, t),
            Op::FreeLocalI64(t) => release64(f, t),
            Op::AliasReg8(r, t) => if r < 8 {
                alloc32(f, t)
            } else {
                invalid(f)
            },
            Op::FreeReg8Alias(r, t) => release(f, t),
            Op::AbsoluteIndirectJump(t) => release(f, t),
            Op::IfI32 => open_block(pop_push(f, 1, 0), CtrlKind::Then, 1),
            Op::IfVoid => open_block(pop_push(f, 1, 0), CtrlKind::Then, 0),
            Op::Else => else_block(f),
            Op::BlockEnd => end_block(f),
            Op::SafeReadWriteBegin(_, a) => if usable(f, a) {
                pop_push(open_block(f, CtrlKind::ReadWrite, 1), 0, 1)
            } else {
                invalid(f)
            },
            Op::SafeReadWriteEnd => end_read_write(f),
            Op::Return | Op::TriggerUd | Op::TriggerDe | Op::TriggerGp(_) => diverge(f),
        }
    }
}

/// The frame after running the validator over `code` from the start of an instruction.
#[verifier::opaque]
pub open spec fn frame_of(code: Seq<Op>) -> Frame
    decreases code.len(),
{
    if code.len() == 0 {
        initial_frame()
    } else {
        step(frame_of(code.drop_last()), code.last())
    }
}

pub proof fn lemma_frame_of_empty()
    ensures
        frame_of(Seq::<Op>::empty()) == initial_frame(),
{
    reveal(frame_of);
}

pub proof fn lemma_frame_of_push(code: Seq<Op>, op: Op)
    ensures
        frame_of(code.push(op)) == step(frame_of(code), op),
{
    reveal(frame_of);
    assert(code.push(op).drop_last() =~= code);
}

/// Between the two frames the code changed the stack height by `delta` and left the
/// same blocks open and the same temporaries live, unless it ended in a jump out of the
/// generated function.
pub open spec fn settled_by(pre: Frame, post: Frame, delta: int) -> bool {
    &&& post.valid
    &&& post.ctrl == pre.ctrl
    &&& post.live == pre.live
    &&& post.live64 == pre.live64
    &&& (post.unreachable || (post.depth == pre.depth + delta && post.unreachable
        == pre.unreachable))
}

} // verus!
