//! The operations that the instruction generators emit.
//!
//! A generator does not produce WebAssembly bytes itself: it records, in order, every
//! call it makes into the WebAssembly builder, into the code-generation helpers and
//! into the instruction-stream reader.  The recorded sequence is then replayed against
//! the real builder.  Each variant of [`Op`] stands for exactly one such call.

use vstd::prelude::*;

verus! {

/// A 32-bit WebAssembly local: one of the eight locals that cache the general purpose
/// registers, or a temporary allocated while generating one instruction.
#[derive(Clone, Copy, PartialEq, Eq, Debug)]
pub enum WasmLocal {
    Register(u32),
    Temp(u32),
}

/// A 64-bit temporary WebAssembly local.
#[derive(Clone, Copy, PartialEq, Eq, Debug)]
pub struct WasmLocalI64 {
    pub index: u32,
}

/// A fixed location in the emulator's memory that generated code reads or writes.
#[derive(Clone, Copy, PartialEq, Eq, Debug)]
pub enum GlobalPointer {
    Flags,
    FlagsChanged,
    LastOp1,
    LastResult,
    LastOpSize,
    PageFault,
    FpuControlWord,
    SseScratchRegister,
    /// Low 64 bits of an xmm register.
    XmmLow(u32),
    /// High 64 bits of an xmm register.
    XmmHigh(u32),
}

/// Operand size of a read-modify-write memory access.
#[derive(Clone, Copy, PartialEq, Eq, Debug)]
pub enum BitSize {
    Byte,
    Word,
    Dword,
}

/// How an immediate is read from the instruction stream.
#[derive(Clone, Copy, PartialEq, Eq, Debug)]
pub enum ImmKind {
    /// An unsigned byte.
    Imm8,
    /// A byte, sign-extended to 32 bits.
    Imm8s,
    /// An unsigned 16-bit word.
    Imm16,
    /// A 32-bit doubleword.
    Imm32,
}

/// Which opcode table decodes the next byte of the instruction stream.
#[derive(Clone, Copy, PartialEq, Eq, Debug)]
pub enum DispatchTable {
    /// The one-byte opcode table, indexed by the byte and the operand size.
    OneByte,
    /// The `0F` table with 16-bit operand size.
    TwoByte16,
    /// The `0F` table with 32-bit operand size.
    TwoByte32,
}

/// The second operand of a two-operand generator: a local, a value known now, or the
/// immediate that was read last from the instruction stream (its value is only known
/// when the recorded operations are replayed).
#[derive(Clone, Copy, PartialEq, Eq, Debug)]
pub enum LocalOrImmedate {
    WasmLocal(WasmLocal),
    Immediate(i32),
    ReadImmediate,
}

/// One recorded call.
#[derive(Clone, Copy, PartialEq, Eq, Debug)]
pub enum Op {
    // --- WebAssembly builder ---
    ConstI32(i32),
    ConstI64(i64),
    /// `const_i32` of the address of a global pointer.
    ConstGlobal(GlobalPointer),
    GetLocal(WasmLocal),
    SetLocal(WasmLocal),
    /// `set_new_local`: pops the top of the stack into a freshly allocated temporary.
    SetNewLocal(u32),
    SetNewLocalI64(u32),
    TeeNewLocalI64(u32),
    GetLocalI64(u32),
    FreeLocal(u32),
    FreeLocalI64(u32),
    AddI32,
    SubI32,
    AndI32,
    OrI32,
    XorI32,
    ShlI32,
    ShrUI32,
    ShrSI32,
    EqzI32,
    NeI32,
    ExtendUnsignedI32ToI64,
    WrapI64ToI32,
    MulI64,
    ShrUI64,
    LoadAlignedI32(GlobalPointer),
    LoadU8(GlobalPointer),
    LoadAlignedU16FromStack(u32),
    LoadAlignedI64FromStack(u32),
    StoreAlignedI32(u32),
    StoreAlignedU16(u32),
    StoreAlignedI64(u32),
    DemoteF64ToF32,
    ReinterpretF32AsI32,
    ReinterpretF64AsI64,
    ConvertI32ToF64,
    ConvertI64ToF64,
    IfI32,
    IfVoid,
    Else,
    BlockEnd,
    Return,
    // --- code-generation helpers ---
    GetReg8(u32),
    GetReg16(u32),
    GetReg32(u32),
    SetReg8(u32),
    SetReg16(u32),
    SetReg32(u32),
    /// `gen_set_reg8_r(dest, src)`.
    SetReg8R(u32, u32),
    SetReg16R(u32, u32),
    SetReg32R(u32, u32),
    /// `gen_set_reg16_local`: pops a value into the low 16 bits of a local.
    SetReg16Local(WasmLocal),
    /// `gen_get_reg8_or_alias_to_reg32`: binds the temporary to a local holding the
    /// 8-bit register (an alias of the 32-bit register for AL..BL).
    AliasReg8(u32, u32),
    /// `gen_free_reg8_or_alias`.
    FreeReg8Alias(u32, u32),
    GetSreg(u32),
    ModrmResolve(u8),
    ModrmResolveSafeRead8(u8),
    ModrmResolveSafeRead16(u8),
    ModrmResolveSafeRead32(u8),
    ModrmResolveSafeRead64(u8),
    ModrmResolveSafeRead128(u8, GlobalPointer),
    /// `modrm::skip`: consumes the addressing bytes without generating code.
    ModrmSkip(u8),
    /// `jit_add_seg_offset`.
    AddSegOffset(u32),
    SafeRead8(WasmLocal),
    SafeRead16(WasmLocal),
    SafeRead32(WasmLocal),
    /// Reads the quadword at the address in the local; pushes it as a 64-bit value.
    SafeRead64(WasmLocal),
    /// Reads the 128 bits at the address in the local into the given global location.
    SafeRead128(WasmLocal, GlobalPointer),
    SafeWrite8(WasmLocal, WasmLocal),
    SafeWrite16(WasmLocal, WasmLocal),
    SafeWrite32(WasmLocal, WasmLocal),
    SafeWrite64(WasmLocal, u32),
    SafeWrite128(WasmLocal, u32, u32),
    /// Start of `gen_safe_read_write`: the operations up to the matching
    /// [`Op::SafeReadWriteEnd`] form the body that turns the value read into the value
    /// written back.
    SafeReadWriteBegin(BitSize, WasmLocal),
    SafeReadWriteEnd,
    CallFn1(&'static str),
    CallFn2(&'static str),
    CallFn3(&'static str),
    CallFn1Ret(&'static str),
    CallFn2Ret(&'static str),
    CallFn3Ret(&'static str),
    CallFn2I32F64(&'static str),
    CallFn1F64(&'static str),
    CallFn1F64RetI32(&'static str),
    CallFn1F64RetI64(&'static str),
    CallFn2I64I32(&'static str),
    Fn0Const(&'static str),
    Fn0ConstRet(&'static str),
    Fn1Const(&'static str, u32),
    /// A one-argument call of a string-instruction helper whose name is the
    /// concatenation of the three parts.
    CallStringFn1(&'static str, &'static str, &'static str),
    CallStringFn2(&'static str, &'static str, &'static str),
    Push16(WasmLocal),
    Push32(WasmLocal),
    Pop16,
    Pop32s,
    AdjustStackReg(u32),
    TriggerUd,
    TriggerDe,
    TriggerGp(u32),
    GetCf,
    GetZf,
    SetFlagsBits(i32),
    ClearFlagsBits(i32),
    SetLastOp1(WasmLocal),
    SetLastResult(WasmLocal),
    SetLastOpSize(i32),
    SetFlagsChanged(i32),
    SignExtendI8,
    SignExtendI16,
    FpuLoadM32(u8),
    FpuLoadM64(u8),
    FpuGetSti(u32),
    GetRealEip,
    JmpRel16(u16),
    RelativeJump(i32),
    AddCsOffset,
    /// `gen_absolute_indirect_jump`, which takes ownership of the temporary.
    AbsoluteIndirectJump(u32),
    Leave(bool),
    ConditionFn(u32),
    MoveRegistersFromLocalsToMemory,
    MoveRegistersFromMemoryToLocals,
    SetPreviousEipOffsetFromEipWithLowBits(i32),
    DebugTrackJitExit(u32),
    SetEipToAfterCurrentInstruction,
    // --- instruction stream ---
    /// Reads the next immediate of the given kind; it becomes the pending immediate.
    ReadImm(ImmKind),
    /// `const_i32((imm & mask) >> shift)` of the pending immediate.
    ConstPendingImm(i32, u32),
    /// Reads the next opcode byte and continues with its generator.
    Dispatch(DispatchTable),
}

} // verus!
