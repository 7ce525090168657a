//! Register numbers, flag bits, operand sizes and prefix bits of the emulated CPU.

use vstd::prelude::*;

verus! {

pub const EAX: u32 = 0;
pub const ECX: u32 = 1;
pub const EDX: u32 = 2;
pub const EBX: u32 = 3;
pub const ESP: u32 = 4;
pub const EBP: u32 = 5;
pub const ESI: u32 = 6;
pub const EDI: u32 = 7;

pub const AX: u32 = 0;
pub const CX: u32 = 1;
pub const DX: u32 = 2;
pub const BX: u32 = 3;
pub const SP: u32 = 4;
pub const BP: u32 = 5;
pub const SI: u32 = 6;
pub const DI: u32 = 7;

pub const AL: u32 = 0;
pub const CL: u32 = 1;
pub const DL: u32 = 2;
pub const BL: u32 = 3;
pub const AH: u32 = 4;
pub const CH: u32 = 5;
pub const DH: u32 = 6;
pub const BH: u32 = 7;

pub const ES: u32 = 0;
pub const CS: u32 = 1;
pub const SS: u32 = 2;
pub const DS: u32 = 3;
pub const FS: u32 = 4;
pub const GS: u32 = 5;

pub const FLAG_CARRY: i32 = 1;
pub const FLAG_PARITY: i32 = 4;
pub const FLAG_ADJUST: i32 = 16;
pub const FLAG_ZERO: i32 = 64;
pub const FLAG_SIGN: i32 = 128;
pub const FLAG_INTERRUPT: i32 = 512;
pub const FLAG_DIRECTION: i32 = 1024;
pub const FLAG_OVERFLOW: i32 = 2048;
/// Marks lazily computed flags whose last operation was a subtraction.
pub const FLAG_SUB: i32 = -2147483648;
/// Carry, parity, adjust, zero, sign and overflow.
pub const FLAGS_ALL: i32 = 0x8D5;
/// Every flag bit that software can change.
pub const FLAGS_MASK: i32 = 0x3F7FD5;
/// Bit 1 of the flags register always reads as one.
pub const FLAGS_DEFAULT: i32 = 2;

/// Mask that clears the carry flag.
pub const NOT_CARRY: i32 = !FLAG_CARRY;
/// Mask that clears the direction flag.
pub const NOT_DIRECTION: i32 = !FLAG_DIRECTION;
/// Mask that clears the low byte.
pub const NOT_LOW_BYTE: i32 = !0xFF;
/// Mask that clears the low 16 bits.
pub const NOT_LOW_WORD: i32 = !0xFFFF;

pub const OPSIZE_8: i32 = 7;
pub const OPSIZE_16: i32 = 15;
pub const OPSIZE_32: i32 = 31;

pub const PREFIX_F3: u32 = 8;
pub const PREFIX_F2: u32 = 16;
pub const PREFIX_66: u32 = 32;
pub const PREFIX_67: u32 = 64;
/// Segment field of the prefix state meaning "no segment base is added".
pub const SEG_PREFIX_ZERO: u32 = 7;

/// Index of a 16-bit register within the array of 16-bit register halves: `reg << 1`.
pub fn get_reg16_index(reg: i32) -> (index: i32)
    ensures
        index == (2 * reg) as i32,
{
    proof {
        assert(reg << 1 == (2 * reg) as i32) by (bit_vector);
    }
    reg << 1
}

} // verus!
