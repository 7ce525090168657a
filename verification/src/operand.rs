//! The second operand of two-operand generators.

use vstd::prelude::*;
use crate::op::{Op, LocalOrImmedate};
use crate::frame::{Frame, usable, shifted};
use crate::builder::{WasmBuilder, ready, builder_emits, restores_by};

verus! {

/// The operation that puts the operand on the stack.
pub open spec fn operand_op(o: LocalOrImmedate) -> Op {
    match o {
        LocalOrImmedate::WasmLocal(l) => Op::GetLocal(l),
        LocalOrImmedate::Immediate(i) => Op::ConstI32(i),
        LocalOrImmedate::ReadImmediate => Op::ConstPendingImm(-1i32, 0u32),
    }
}

pub open spec fn operand_usable(f: Frame, o: LocalOrImmedate) -> bool {
    match o {
        LocalOrImmedate::WasmLocal(l) => usable(f, l),
        _ => true,
    }
}

impl LocalOrImmedate {
    /// Pushes the operand.
    pub fn gen_get(&self, builder: &mut WasmBuilder)
        requires
            ready(*old(builder), 64),
            operand_usable(old(builder).frame(), *self),
        ensures
            final(builder).code@ == old(builder).code@.push(operand_op(*self)),
            final(builder).next_local == old(builder).next_local,
            final(builder).frame() == shifted(old(builder).frame(), 1),
    {
        match self {
            LocalOrImmedate::WasmLocal(l) => builder.emit(Op::GetLocal(*l)),
            LocalOrImmedate::Immediate(i) => builder.emit(Op::ConstI32(*i)),
            LocalOrImmedate::ReadImmediate => builder.emit(Op::ConstPendingImm(-1, 0)),
        }
    }
}

/// Pushes the bit offset of a bit test: the operand cut by `mask`.
pub open spec fn bit_offset_code(o: LocalOrImmedate, mask: u32) -> Seq<Op> {
    match o {
        LocalOrImmedate::WasmLocal(l) => seq![Op::GetLocal(l), Op::ConstI32(mask as i32), Op::AndI32],
        LocalOrImmedate::Immediate(imm) => seq![Op::ConstI32(imm & (mask as i32))],
        LocalOrImmedate::ReadImmediate => seq![Op::ConstPendingImm(mask as i32, 0)],
    }
}

/// Pushes `bit_offset & offset_mask`; an immediate is cut when the code is generated.
pub fn gen_bit_offset(builder: &mut WasmBuilder, bit_offset: &LocalOrImmedate, offset_mask: u32)
    requires
        ready(*old(builder), 64),
        operand_usable(old(builder).frame(), *bit_offset),
    ensures
        builder_emits(*old(builder), *final(builder), bit_offset_code(*bit_offset, offset_mask), 0),
        restores_by(*old(builder), *final(builder), 1),
{
    match bit_offset {
        LocalOrImmedate::WasmLocal(l) => {
            builder.emit(Op::GetLocal(*l));
            builder.emit(Op::ConstI32(offset_mask as i32));
            builder.emit(Op::AndI32);
        },
        LocalOrImmedate::Immediate(imm) => {
            builder.emit(Op::ConstI32(*imm & (offset_mask as i32)));
        },
        LocalOrImmedate::ReadImmediate => {
            builder.emit(Op::ConstPendingImm(offset_mask as i32, 0));
        },
    }
    proof {
        assert(builder.code@ =~= old(builder).code@ + bit_offset_code(*bit_offset, offset_mask));
        assert(builder.frame() =~= shifted(old(builder).frame(), 1));
    }
}

} // verus!
