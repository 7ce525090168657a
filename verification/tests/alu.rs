use v86_jit::alu::{gen_add32, gen_and32, gen_bt, gen_cmp16, gen_cmp32, gen_cmp8, gen_sub32, gen_test16, gen_xor32};
use v86_jit::builder::WasmBuilder;
use v86_jit::consts::{FLAGS_ALL, FLAG_SUB};
use v86_jit::op::{GlobalPointer, LocalOrImmedate, Op, WasmLocal};

const EAX: WasmLocal = WasmLocal::Register(0);

#[test]
fn add32_records_operands_and_result() {
    let mut b = WasmBuilder::new();
    gen_add32(&mut b, &EAX, &LocalOrImmedate::Immediate(5));
    assert_eq!(
        b.code,
        vec![
            Op::SetLastOp1(EAX),
            Op::GetLocal(EAX),
            Op::ConstI32(5),
            Op::AddI32,
            Op::SetLocal(EAX),
            Op::SetLastResult(EAX),
            Op::SetLastOpSize(31),
            Op::SetFlagsChanged(0x8D5),
        ]
    );
    assert_eq!(b.next_local, 0);
}

#[test]
fn sub32_marks_the_subtraction() {
    let mut b = WasmBuilder::new();
    gen_sub32(&mut b, &EAX, &LocalOrImmedate::WasmLocal(WasmLocal::Register(3)));
    assert_eq!(b.code[2], Op::GetLocal(WasmLocal::Register(3)));
    assert_eq!(b.code[3], Op::SubI32);
    assert_eq!(b.code[7], Op::SetFlagsChanged(FLAGS_ALL | FLAG_SUB));
    assert_eq!(FLAGS_ALL | FLAG_SUB, -2147481387);
}

#[test]
fn logic_ops_clear_carry_overflow_adjust() {
    let mut b = WasmBuilder::new();
    gen_and32(&mut b, &EAX, &LocalOrImmedate::Immediate(0xF0));
    assert_eq!(b.code[5], Op::SetLastOpSize(31));
    assert_eq!(b.code[6], Op::SetFlagsChanged(0x0C4));
    assert_eq!(b.code[7], Op::ClearFlagsBits(0x811));
    let mut c = WasmBuilder::new();
    gen_xor32(&mut c, &EAX, &LocalOrImmedate::WasmLocal(EAX));
    assert_eq!(c.code[1], Op::GetLocal(EAX));
    assert_eq!(c.code[2], Op::XorI32);
}

#[test]
fn cmp8_cuts_both_values_to_a_byte() {
    let mut b = WasmBuilder::new();
    gen_cmp8(&mut b, &EAX, &LocalOrImmedate::Immediate(1));
    assert_eq!(
        b.code,
        vec![
            Op::ConstGlobal(GlobalPointer::LastResult),
            Op::GetLocal(EAX),
            Op::ConstI32(1),
            Op::SubI32,
            Op::ConstI32(0xFF),
            Op::AndI32,
            Op::StoreAlignedI32(0),
            Op::ConstGlobal(GlobalPointer::LastOp1),
            Op::GetLocal(EAX),
            Op::ConstI32(0xFF),
            Op::AndI32,
            Op::StoreAlignedI32(0),
            Op::SetLastOpSize(7),
            Op::SetFlagsChanged(FLAGS_ALL | FLAG_SUB),
        ]
    );
}

#[test]
fn cmp16_cuts_to_a_word_and_cmp32_does_not_cut() {
    let mut b = WasmBuilder::new();
    gen_cmp16(&mut b, &EAX, &LocalOrImmedate::Immediate(1));
    assert_eq!(b.code[4], Op::ConstI32(0xFFFF));
    assert_eq!(b.code.len(), 14);
    let mut c = WasmBuilder::new();
    gen_cmp32(&mut c, &EAX, &LocalOrImmedate::Immediate(1));
    assert_eq!(c.code.len(), 10);
    assert!(!c.code.contains(&Op::AndI32));
    assert_eq!(c.code[8], Op::SetLastOpSize(31));
}

#[test]
fn test16_records_the_conjunction() {
    let mut b = WasmBuilder::new();
    gen_test16(&mut b, &EAX, &LocalOrImmedate::Immediate(0x8000));
    assert_eq!(
        b.code,
        vec![
            Op::ConstGlobal(GlobalPointer::LastResult),
            Op::GetLocal(EAX),
            Op::ConstI32(0x8000),
            Op::AndI32,
            Op::StoreAlignedI32(0),
            Op::SetLastOpSize(15),
            Op::SetFlagsChanged(0x0C4),
            Op::ClearFlagsBits(0x811),
        ]
    );
}

#[test]
fn bt_cuts_an_immediate_offset_when_generating() {
    let mut b = WasmBuilder::new();
    gen_bt(&mut b, &EAX, &LocalOrImmedate::Immediate(35), 31);
    assert_eq!(b.code[5], Op::ConstI32(3));
    assert_eq!(b.code[6], Op::ShrUI32);
    assert_eq!(b.code[2], Op::ConstI32(!1));
}

#[test]
fn bt_cuts_a_register_offset_at_run_time() {
    let mut b = WasmBuilder::new();
    gen_bt(&mut b, &EAX, &LocalOrImmedate::WasmLocal(WasmLocal::Register(1)), 15);
    assert_eq!(b.code[5], Op::GetLocal(WasmLocal::Register(1)));
    assert_eq!(b.code[6], Op::ConstI32(15));
    assert_eq!(b.code[7], Op::AndI32);
    assert_eq!(b.code.len(), 18);
}

#[test]
fn pending_immediate_operand_is_pushed_uncut() {
    let mut b = WasmBuilder::new();
    LocalOrImmedate::ReadImmediate.gen_get(&mut b);
    assert_eq!(b.code, vec![Op::ConstPendingImm(-1, 0)]);
}
