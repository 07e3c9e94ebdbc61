//! Addressing modes and the operand decoder for 32-bit instruction words.
use vstd::prelude::*;

verus! {

/// How the bits below the opcode split into operands.
#[allow(non_camel_case_types)]
#[derive(Debug, Clone, Copy, PartialEq, Eq, Structural)]
pub enum OpMode {
    /// A (8 bits at 0), B (at 17) and C (at 8).
    iABC,
    /// A and an unsigned 17-bit Bx at 8.
    iABx,
    /// A and a biased, signed 17-bit sBx at 8.
    iAsBx,
}

/// What operand A holds.
#[derive(Debug, Clone, Copy, PartialEq, Eq, Structural)]
pub enum OpArgModeA {
    Unused,
    Reg,
}

/// What operand B or C holds.
#[derive(Debug, Clone, Copy, PartialEq, Eq, Structural)]
pub enum OpArgModeBC {
    Unused,
    Number,
    Offset,
    Reg,
    RegOrConst,
    Const,
}

/// The addressing-mode descriptor of one opcode.
#[derive(Debug, Clone, Copy, PartialEq, Eq, Structural)]
pub struct OpModes {
    pub mode: OpMode,
    pub arg_mode_a: OpArgModeA,
    pub arg_mode_b: OpArgModeBC,
    pub arg_mode_c: OpArgModeBC,
}

/// The class of a decoded operand.
#[derive(Debug, Clone, Copy, PartialEq, Eq, Structural)]
pub enum OpArgMode {
    /// An immediate number.
    Number,
    /// A stack register index.
    Reg,
    /// An index into the prototype's constant pool.
    Const,
}

/// One decoded operand.
#[derive(Debug, Clone, Copy, PartialEq, Eq, Structural)]
pub struct OpArg {
    pub mode: OpArgMode,
    pub value: u32,
}

/// Bias subtracted from the 17-bit field of an `iAsBx` instruction.
pub const SBX_BIAS: u32 = 0xFFFF;

/// Bit position of operand B in an `iABC` word.
pub const B_SHIFT: u32 = 17;

/// Bit position of operand C in an `iABC` word, and of Bx / sBx.
pub const C_SHIFT: u32 = 8;

/// The opcode: the top seven bits of the word.
pub open spec fn spec_opcode(raw: u32) -> u8 {
    ((raw >> 25u32) & 0x7Fu32) as u8
}

/// The 9-bit field at `shift`, before any mode narrows it.
pub open spec fn field9(raw: u32, shift: u32) -> u32 {
    (raw >> shift) & 0x1FFu32
}

/// The 8-bit field at `shift`.
pub open spec fn field8(raw: u32, shift: u32) -> u32 {
    (raw >> shift) & 0xFFu32
}

/// The combined 17-bit field of `iABx` and `iAsBx` words.
pub open spec fn field17(raw: u32) -> u32 {
    (raw >> 8u32) & 0x1FFFFu32
}

/// The register-or-constant rule on a 9-bit field: below 0x100 a register,
/// else a constant whose index is the low eight bits.
pub open spec fn spec_reg_or_const(raw_field: u32) -> OpArg {
    if raw_field < 0x100 {
        OpArg { mode: OpArgMode::Reg, value: raw_field }
    } else {
        OpArg { mode: OpArgMode::Const, value: raw_field & 0xFFu32 }
    }
}

/// Operand B (`shift` 17) or C (`shift` 8) of an `iABC` word; none when unused.
pub open spec fn spec_operand_bc(raw: u32, shift: u32, m: OpArgModeBC) -> Option<OpArg> {
    match m {
        OpArgModeBC::Unused => None,
        OpArgModeBC::Number => Some(OpArg { mode: OpArgMode::Number, value: field8(raw, shift) }),
        OpArgModeBC::Offset => Some(OpArg { mode: OpArgMode::Number, value: field9(raw, shift) }),
        OpArgModeBC::Reg => Some(OpArg { mode: OpArgMode::Reg, value: field8(raw, shift) }),
        OpArgModeBC::RegOrConst => Some(spec_reg_or_const(field9(raw, shift))),
        OpArgModeBC::Const => Some(OpArg { mode: OpArgMode::Const, value: field8(raw, shift) }),
    }
}

/// `v - SBX_BIAS`, wrapped to 32 bits (two's complement).
pub open spec fn spec_unbias(v: u32) -> u32 {
    if v >= SBX_BIAS {
        (v - SBX_BIAS) as u32
    } else {
        (v + 0x1_0000_0000 - SBX_BIAS) as u32
    }
}

/// A 32-bit value read as two's complement.
pub open spec fn signed_of(v: u32) -> int {
    if v < 0x8000_0000 {
        v as int
    } else {
        v - 0x1_0000_0000
    }
}

/// Operand A of a word.
pub open spec fn spec_operand_a(raw: u32, modes: OpModes) -> OpArg {
    OpArg {
        mode: if modes.arg_mode_a == OpArgModeA::Reg {
            OpArgMode::Reg
        } else {
            OpArgMode::Number
        },
        value: raw & 0xFFu32,
    }
}

/// Operand Bx or sBx of an `iABx` / `iAsBx` word.
pub open spec fn spec_operand_bx(raw: u32, modes: OpModes) -> OpArg {
    OpArg {
        mode: if modes.arg_mode_b == OpArgModeBC::Const {
            OpArgMode::Const
        } else {
            OpArgMode::Number
        },
        value: if modes.mode == OpMode::iAsBx {
            spec_unbias(field17(raw))
        } else {
            field17(raw)
        },
    }
}

/// Appends an operand when there is one.
pub open spec fn push_opt(s: Seq<OpArg>, o: Option<OpArg>) -> Seq<OpArg> {
    match o {
        Some(a) => s.push(a),
        None => s,
    }
}

/// The ordered operands of `raw` under the descriptor `modes`.
pub open spec fn spec_operands(raw: u32, modes: OpModes) -> Seq<OpArg> {
    let a = seq![spec_operand_a(raw, modes)];
    if modes.mode == OpMode::iABC {
        push_opt(
            push_opt(a, spec_operand_bc(raw, B_SHIFT, modes.arg_mode_b)),
            spec_operand_bc(raw, C_SHIFT, modes.arg_mode_c),
        )
    } else if modes.arg_mode_b != OpArgModeBC::Unused {
        a.push(spec_operand_bx(raw, modes))
    } else {
        a
    }
}

impl OpArg {
    /// The value read as a two's-complement integer, as for an `sBx` offset.
    pub fn signed_value(&self) -> (r: i32)
        ensures
            r as int == signed_of(self.value),
    {
        if self.value < 0x8000_0000 {
            self.value as i32
        } else {
            let m: u32 = self.value - 0x8000_0000;
            (m as i32) - 0x7FFF_FFFF - 1
        }
    }
}

/// The opcode of an instruction word.
pub fn opcode_of(raw: u32) -> (r: u8)
    ensures
        r == spec_opcode(raw),
        r < 128,
{
    let r = ((raw >> 25u32) & 0x7Fu32) as u8;
    assert(((raw >> 25u32) & 0x7Fu32) < 128) by (bit_vector);
    r
}

/// The register-or-constant rule on a 9-bit field.
pub fn reg_or_const(raw_field: u32) -> (r: OpArg)
    ensures
        r == spec_reg_or_const(raw_field),
{
    if raw_field < 0x100 {
        OpArg { mode: OpArgMode::Reg, value: raw_field }
    } else {
        OpArg { mode: OpArgMode::Const, value: raw_field & 0xFF }
    }
}

/// Decodes operand B (`shift` 17) or C (`shift` 8) of an `iABC` word.
pub fn decode_operand_bc(raw: u32, shift: u32, m: OpArgModeBC) -> (r: Option<OpArg>)
    requires
        shift == B_SHIFT || shift == C_SHIFT,
    ensures
        r == spec_operand_bc(raw, shift, m),
{
    match m {
        OpArgModeBC::Unused => None,
        OpArgModeBC::Number => Some(OpArg { mode: OpArgMode::Number, value: (raw >> shift) & 0xFF }),
        OpArgModeBC::Offset => Some(OpArg { mode: OpArgMode::Number, value: (raw >> shift) & 0x1FF }),
        OpArgModeBC::Reg => Some(OpArg { mode: OpArgMode::Reg, value: (raw >> shift) & 0xFF }),
        OpArgModeBC::RegOrConst => Some(reg_or_const((raw >> shift) & 0x1FF)),
        OpArgModeBC::Const => Some(OpArg { mode: OpArgMode::Const, value: (raw >> shift) & 0xFF }),
    }
}

/// Decodes the operands of `raw` under the addressing-mode descriptor of its
/// opcode: A always, then B and C (`iABC`) or Bx / sBx, each only when its
/// mode is used.
pub fn decode_operands(raw: u32, modes: OpModes) -> (r: Vec<OpArg>)
    ensures
        r@ == spec_operands(raw, modes),
        1 <= r@.len() <= 3,
{
    let mut args: Vec<OpArg> = Vec::new();
    let a_mode = match modes.arg_mode_a {
        OpArgModeA::Unused => OpArgMode::Number,
        OpArgModeA::Reg => OpArgMode::Reg,
    };
    args.push(OpArg { mode: a_mode, value: raw & 0xFF });
    if modes.mode == OpMode::iABC {
        match decode_operand_bc(raw, B_SHIFT, modes.arg_mode_b) {
            Some(b) => args.push(b),
            None => {},
        }
        match decode_operand_bc(raw, C_SHIFT, modes.arg_mode_c) {
            Some(c) => args.push(c),
            None => {},
        }
    } else if modes.arg_mode_b != OpArgModeBC::Unused {
        let bx: u32 = (raw >> 8u32) & 0x1FFFF;
        let value: u32 = if modes.mode == OpMode::iAsBx {
            if bx >= SBX_BIAS {
                bx - SBX_BIAS
            } else {
                assert(bx <= 0x1FFFFu32) by (bit_vector)
                    requires bx == (raw >> 8u32) & 0x1FFFFu32;
                bx + (0xFFFF_FFFF - SBX_BIAS) + 1
            }
        } else {
            bx
        };
        let mode = match modes.arg_mode_b {
            OpArgModeBC::Const => OpArgMode::Const,
            _ => OpArgMode::Number,
        };
        args.push(OpArg { mode, value });
    }
    args
}

/// A field below 0x100 under the register-or-constant rule is the register
/// of that number.
pub proof fn lemma_reg_or_const_low(raw_field: u32)
    requires
        raw_field <= 0xFF,
    ensures
        spec_reg_or_const(raw_field) == (OpArg { mode: OpArgMode::Reg, value: raw_field }),
{
}

/// A field in `0x100..=0x1FF` under the register-or-constant rule is the
/// constant whose index is its low eight bits.
pub proof fn lemma_reg_or_const_high(raw_field: u32)
    requires
        0x100 <= raw_field <= 0x1FF,
    ensures
        spec_reg_or_const(raw_field) == (OpArg {
            mode: OpArgMode::Const,
            value: raw_field & 0xFFu32,
        }),
        (raw_field & 0xFFu32) == raw_field - 0x100,
{
    assert(0x100 <= raw_field <= 0x1FF ==> (raw_field & 0xFFu32) == raw_field - 0x100)
        by (bit_vector);
}

/// In an `iABC` word, an operand B or C in register-or-constant mode is a
/// register exactly when its 9-bit field is below 0x100 (its value is then
/// the field), and otherwise the constant given by the field's low eight bits.
pub proof fn lemma_abc_reg_or_const(raw: u32, modes: OpModes)
    requires
        modes.mode == OpMode::iABC,
    ensures
        modes.arg_mode_b == OpArgModeBC::RegOrConst ==> spec_operands(raw, modes)[1]
            == spec_reg_or_const(field9(raw, B_SHIFT)),
        modes.arg_mode_c == OpArgModeBC::RegOrConst ==> spec_operands(raw, modes)[
            if modes.arg_mode_b == OpArgModeBC::Unused { 1int } else { 2int }
        ] == spec_reg_or_const(field9(raw, C_SHIFT)),
        field9(raw, B_SHIFT) <= 0x1FF,
        field9(raw, C_SHIFT) <= 0x1FF,
{
    assert(field9(raw, B_SHIFT) <= 0x1FF) by (bit_vector);
    assert(field9(raw, C_SHIFT) <= 0x1FF) by (bit_vector);
}

/// The operand of an `iAsBx` word read as a signed number is its 17-bit
/// field minus the bias: 0x10000 gives 1, 0xFFFF gives 0, 0 gives -65535.
pub proof fn lemma_sbx_signed(raw: u32, modes: OpModes)
    requires
        modes.mode == OpMode::iAsBx,
        modes.arg_mode_b != OpArgModeBC::Unused,
    ensures
        spec_operands(raw, modes).len() == 2,
        signed_of(spec_operands(raw, modes)[1].value) == field17(raw) - SBX_BIAS,
        modes.arg_mode_b != OpArgModeBC::Const ==> spec_operands(raw, modes)[1].mode
            == OpArgMode::Number,
{
    assert(field17(raw) <= 0x1FFFF) by (bit_vector);
}

} // verus!
