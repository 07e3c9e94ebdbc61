use lua_container::opcodes::{
    decode_operand_bc, decode_operands, opcode_of, reg_or_const, OpArg, OpArgMode, OpArgModeA,
    OpArgModeBC, OpMode, OpModes,
};

fn abc(a: OpArgModeA, b: OpArgModeBC, c: OpArgModeBC) -> OpModes {
    OpModes { mode: OpMode::iABC, arg_mode_a: a, arg_mode_b: b, arg_mode_c: c }
}

fn bx(mode: OpMode, b: OpArgModeBC) -> OpModes {
    OpModes {
        mode,
        arg_mode_a: OpArgModeA::Reg,
        arg_mode_b: b,
        arg_mode_c: OpArgModeBC::Unused,
    }
}

#[test]
fn reg_or_const_low_fields_are_registers() {
    for f in 0u32..=0xFF {
        assert_eq!(reg_or_const(f), OpArg { mode: OpArgMode::Reg, value: f });
        let modes = abc(OpArgModeA::Reg, OpArgModeBC::RegOrConst, OpArgModeBC::RegOrConst);
        let args = decode_operands((f << 17) | (f << 8), modes);
        assert_eq!(args.len(), 3);
        assert_eq!(args[1], OpArg { mode: OpArgMode::Reg, value: f });
        assert_eq!(args[2], OpArg { mode: OpArgMode::Reg, value: f });
    }
}

#[test]
fn reg_or_const_high_fields_are_constants() {
    assert_eq!(reg_or_const(0x150), OpArg { mode: OpArgMode::Const, value: 0x50 });
    assert_eq!(reg_or_const(0x1FF), OpArg { mode: OpArgMode::Const, value: 0xFF });
    assert_eq!(reg_or_const(0x100), OpArg { mode: OpArgMode::Const, value: 0 });
    for f in 0x100u32..=0x1FF {
        let modes = abc(OpArgModeA::Reg, OpArgModeBC::Unused, OpArgModeBC::RegOrConst);
        let args = decode_operands(f << 8, modes);
        assert_eq!(args.len(), 2);
        assert_eq!(args[1], OpArg { mode: OpArgMode::Const, value: f & 0xFF });
    }
}

#[test]
fn sbx_bias_is_removed() {
    let modes = bx(OpMode::iAsBx, OpArgModeBC::Offset);
    let one = decode_operands(0x10000 << 8, modes);
    assert_eq!(one[1], OpArg { mode: OpArgMode::Number, value: 1 });
    assert_eq!(one[1].signed_value(), 1);
    let zero = decode_operands(0xFFFF << 8, modes);
    assert_eq!(zero[1].signed_value(), 0);
    let low = decode_operands(0, modes);
    assert_eq!(low[1].mode, OpArgMode::Number);
    assert_eq!(low[1].signed_value(), -65535);
    let high = decode_operands(0x1FFFF << 8, modes);
    assert_eq!(high[1].signed_value(), 0x10000);
}

#[test]
fn bx_is_unbiased_and_classed_by_mode() {
    let k = decode_operands((0x12345 << 8) | 7, bx(OpMode::iABx, OpArgModeBC::Const));
    assert_eq!(k.len(), 2);
    assert_eq!(k[0], OpArg { mode: OpArgMode::Reg, value: 7 });
    assert_eq!(k[1], OpArg { mode: OpArgMode::Const, value: 0x12345 });
    let n = decode_operands(0x12345 << 8, bx(OpMode::iABx, OpArgModeBC::Number));
    assert_eq!(n[1], OpArg { mode: OpArgMode::Number, value: 0x12345 });
    let none = decode_operands(0xFFFF_FFFF, bx(OpMode::iABx, OpArgModeBC::Unused));
    assert_eq!(none.len(), 1);
}

#[test]
fn abc_fields_by_mode() {
    // opcode 5, A = 0x12, B field = 0x1AB, C field = 0x0CD
    let raw: u32 = (5 << 25) | (0x1AB << 17) | (0x0CD << 8) | 0x12;
    assert_eq!(opcode_of(raw), 5);
    let b = |m| decode_operand_bc(raw, 17, m);
    assert_eq!(b(OpArgModeBC::Unused), None);
    assert_eq!(b(OpArgModeBC::Number), Some(OpArg { mode: OpArgMode::Number, value: 0xAB }));
    assert_eq!(b(OpArgModeBC::Offset), Some(OpArg { mode: OpArgMode::Number, value: 0x1AB }));
    assert_eq!(b(OpArgModeBC::Reg), Some(OpArg { mode: OpArgMode::Reg, value: 0xAB }));
    assert_eq!(b(OpArgModeBC::Const), Some(OpArg { mode: OpArgMode::Const, value: 0xAB }));
    assert_eq!(b(OpArgModeBC::RegOrConst), Some(OpArg { mode: OpArgMode::Const, value: 0xAB }));
    let c = |m| decode_operand_bc(raw, 8, m);
    assert_eq!(c(OpArgModeBC::RegOrConst), Some(OpArg { mode: OpArgMode::Reg, value: 0xCD }));
    assert_eq!(c(OpArgModeBC::Offset), Some(OpArg { mode: OpArgMode::Number, value: 0xCD }));

    let all = decode_operands(raw, abc(OpArgModeA::Unused, OpArgModeBC::Reg, OpArgModeBC::Number));
    assert_eq!(
        all,
        vec![
            OpArg { mode: OpArgMode::Number, value: 0x12 },
            OpArg { mode: OpArgMode::Reg, value: 0xAB },
            OpArg { mode: OpArgMode::Number, value: 0xCD },
        ]
    );
    let only_a = decode_operands(raw, abc(OpArgModeA::Reg, OpArgModeBC::Unused, OpArgModeBC::Unused));
    assert_eq!(only_a, vec![OpArg { mode: OpArgMode::Reg, value: 0x12 }]);
}

#[test]
fn opcode_is_top_seven_bits() {
    assert_eq!(opcode_of(0xFFFF_FFFF), 127);
    assert_eq!(opcode_of(0x01FF_FFFF), 0);
    assert_eq!(opcode_of(0x0200_0000), 1);
}

#[test]
fn signed_value_reads_twos_complement() {
    assert_eq!(OpArg { mode: OpArgMode::Number, value: 0xFFFF_FFFF }.signed_value(), -1);
    assert_eq!(OpArg { mode: OpArgMode::Number, value: 0x8000_0000 }.signed_value(), i32::MIN);
    assert_eq!(OpArg { mode: OpArgMode::Number, value: 0x7FFF_FFFF }.signed_value(), i32::MAX);
}
