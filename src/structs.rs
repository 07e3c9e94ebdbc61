//! The records of the container and their mathematical views.
use vstd::prelude::*;
use crate::opcodes::{OpArg, OpModes};

verus! {

/// Byte order named by the header.
#[derive(Debug, Clone, Copy, PartialEq, Eq, Structural)]
pub enum LuaEndian {
    Big,
    Little,
}

/// Number type named by the header.
#[derive(Debug, Clone, Copy, PartialEq, Eq, Structural)]
pub enum LuaNumberType {
    Float,
    Integer,
}

/// The fixed header that follows the magic tag.
#[derive(Debug, Clone, Copy, PartialEq, Eq, Structural)]
pub struct LuaHeader {
    pub version: u8,
    pub format: u8,
    pub endianness: LuaEndian,
    pub int_size: u8,
    pub size_t: u8,
    pub instruction_size: u8,
    pub number_size: u8,
    pub number_type: LuaNumberType,
    pub integral_flag: u8,
    pub unk: u8,
}

/// Which section to read next.
#[derive(Debug, Clone, Copy, PartialEq, Eq, Structural)]
pub enum LuaSectionType {
    TypeConstants,
    FunctionBlock,
}

/// A section read from the container.
#[derive(Debug)]
pub enum LuaSection {
    TypeConstants(TypeConstsSection),
    FunctionBlock(Box<FunctionBlock>),
}

/// The global type pool.
#[derive(Debug, Clone)]
pub struct TypeConstsSection {
    pub constants_amount: u32,
    pub constants: Vec<LuaConstant>,
}

/// One entry of the type pool.
#[derive(Debug, Clone)]
pub struct LuaConstant {
    pub constant_type: u32,
    pub string_size: u32,
    pub const_string: String,
}

/// The flag values that the vararg byte of a prototype is known to take.
/// The byte itself is kept as read in [`FunctionBlock::vararg`].
#[derive(Debug, Clone, Copy, PartialEq, Eq, Structural)]
pub enum VarArgFlags {
    Has,
    IsVar,
    Unk3,
    Needs,
}

impl VarArgFlags {
    /// The byte value that stands for each flag.
    pub open spec fn spec_bits(self) -> u8 {
        match self {
            VarArgFlags::Has => 1,
            VarArgFlags::IsVar => 2,
            VarArgFlags::Unk3 => 3,
            VarArgFlags::Needs => 4,
        }
    }

    /// The flag whose value is `v`, if any.
    pub fn from_bits(v: u8) -> (r: Option<VarArgFlags>)
        ensures
            r matches Some(f) ==> f.spec_bits() == v,
            r is None <==> !(1 <= v <= 4),
    {
        if v == 1 {
            Some(VarArgFlags::Has)
        } else if v == 2 {
            Some(VarArgFlags::IsVar)
        } else if v == 3 {
            Some(VarArgFlags::Unk3)
        } else if v == 4 {
            Some(VarArgFlags::Needs)
        } else {
            None
        }
    }
}

/// One instruction word as stored.
#[derive(Debug, Clone, Copy, PartialEq, Eq, Structural)]
pub struct LuaInstruction {
    pub raw: u32,
}

/// A string payload of an engine constant.
#[derive(Debug, Clone)]
pub struct BungieConstantString {
    pub string_size: u32,
    pub const_string: String,
}

/// The payload of an engine constant, chosen by its tag.
#[derive(Debug, Clone)]
pub enum BungieConstantEnum {
    Nil,
    Bool(u8),
    LightUserData(i64),
    /// The bits of a 32-bit IEEE float, as stored.
    Number(u32),
    String(BungieConstantString),
    U64(u64),
}

/// One entry of a prototype's constant pool.
#[derive(Debug, Clone)]
pub struct BungieConstant {
    pub constant_type: u8,
    pub constant: BungieConstantEnum,
}

/// A prototype's constant pool.
#[derive(Debug, Clone)]
pub struct BungieConstsSection {
    pub constants_amount: u32,
    pub constants: Vec<BungieConstant>,
}

/// A named local and the instruction range where it lives.
#[derive(Debug, Clone)]
pub struct DebugLocal {
    pub string_size: u32,
    pub local_name: String,
    pub start: i32,
    pub end: i32,
}

/// An upvalue name.
#[derive(Debug, Clone)]
pub struct DebugUpvalue {
    pub string_size: u32,
    pub string: String,
}

/// A prototype's optional debug block.
#[derive(Debug, Clone)]
pub struct DebugInfo {
    pub line_count: u32,
    pub locals_count: u32,
    pub upvalue_count_2: u32,
    pub line_begin: u32,
    pub line_end: u32,
    pub path_string_size: u32,
    pub path: String,
    pub function_string_size: u32,
    pub function_name: String,
    pub lines: Vec<u32>,
    pub locals: Vec<DebugLocal>,
    pub upvalues: Vec<DebugUpvalue>,
}

/// One function prototype. The root record carries a slot count and no
/// leading tag; a nested record carries a leading tag word and no slot count.
#[derive(Debug)]
pub struct FunctionBlock {
    /// Offset of the record in the buffer.
    pub address: u64,
    pub leading_tag: Option<u32>,
    pub upvalue_count: u32,
    pub param_count: u32,
    /// The vararg flag byte as read; see [`VarArgFlags`].
    pub vararg: u8,
    pub slot_count: Option<u32>,
    pub instruction_count: u32,
    pub instructions: Vec<LuaInstruction>,
    pub consts: BungieConstsSection,
    pub has_debug_info: bool,
    /// Empty when `has_debug_info` is false.
    pub debug_info: DebugInfo,
    pub function_count: u32,
    pub child_functions: Vec<FunctionBlock>,
}

/// A nested prototype: the same record shape as the root.
pub type ChildFunction = FunctionBlock;

/// One decoded instruction.
#[derive(Debug, Clone)]
pub struct DecodedInstruction {
    pub raw: u32,
    pub opcode: u8,
    /// The table entry of the opcode.
    pub modes: OpModes,
    pub args: Vec<OpArg>,
}

/// The decoded instructions of a prototype and, in the same order, of its
/// children.
#[derive(Debug)]
pub struct DecodedFunction {
    pub instructions: Vec<DecodedInstruction>,
    pub children: Vec<DecodedFunction>,
}

/// The elementwise view of a sequence.
pub open spec fn seq_view<T: View>(s: Seq<T>) -> Seq<T::V> {
    s.map_values(|x: T| x@)
}

/// Viewing a sequence with one more element appends that element's view.
pub proof fn lemma_seq_view_push<T: View>(s: Seq<T>, x: T)
    ensures
        seq_view(s.push(x)) == seq_view(s).push(x@),
{
    assert(seq_view(s.push(x)) =~= seq_view(s).push(x@));
}

/// The view of a type-pool entry.
pub ghost struct ConstantView {
    pub constant_type: u32,
    pub string_size: u32,
    pub text: Seq<char>,
}

impl View for LuaConstant {
    type V = ConstantView;

    open spec fn view(&self) -> ConstantView {
        ConstantView {
            constant_type: self.constant_type,
            string_size: self.string_size,
            text: self.const_string@,
        }
    }
}

/// The view of the type pool.
pub ghost struct TypeConstsView {
    pub constants_amount: u32,
    pub constants: Seq<ConstantView>,
}

impl View for TypeConstsSection {
    type V = TypeConstsView;

    open spec fn view(&self) -> TypeConstsView {
        TypeConstsView {
            constants_amount: self.constants_amount,
            constants: seq_view(self.constants@),
        }
    }
}

/// The view of an engine constant's payload.
pub ghost enum EngineValue {
    Nil,
    Bool(u8),
    LightUserData(i64),
    Number(u32),
    Str(u32, Seq<char>),
    U64(u64),
}

impl View for BungieConstantEnum {
    type V = EngineValue;

    open spec fn view(&self) -> EngineValue {
        match self {
            BungieConstantEnum::Nil => EngineValue::Nil,
            BungieConstantEnum::Bool(b) => EngineValue::Bool(*b),
            BungieConstantEnum::LightUserData(v) => EngineValue::LightUserData(*v),
            BungieConstantEnum::Number(v) => EngineValue::Number(*v),
            BungieConstantEnum::String(s) => EngineValue::Str(s.string_size, s.const_string@),
            BungieConstantEnum::U64(v) => EngineValue::U64(*v),
        }
    }
}

/// The view of an engine constant.
pub ghost struct EngineConstantView {
    pub constant_type: u8,
    pub value: EngineValue,
}

impl View for BungieConstant {
    type V = EngineConstantView;

    open spec fn view(&self) -> EngineConstantView {
        EngineConstantView { constant_type: self.constant_type, value: self.constant@ }
    }
}

/// The view of a prototype's constant pool.
pub ghost struct EngineConstsView {
    pub constants_amount: u32,
    pub constants: Seq<EngineConstantView>,
}

impl View for BungieConstsSection {
    type V = EngineConstsView;

    open spec fn view(&self) -> EngineConstsView {
        EngineConstsView {
            constants_amount: self.constants_amount,
            constants: seq_view(self.constants@),
        }
    }
}

/// The view of a debug local.
pub ghost struct DebugLocalView {
    pub string_size: u32,
    pub local_name: Seq<char>,
    pub start: i32,
    pub end: i32,
}

impl View for DebugLocal {
    type V = DebugLocalView;

    open spec fn view(&self) -> DebugLocalView {
        DebugLocalView {
            string_size: self.string_size,
            local_name: self.local_name@,
            start: self.start,
            end: self.end,
        }
    }
}

/// The view of an upvalue name.
pub ghost struct DebugUpvalueView {
    pub string_size: u32,
    pub string: Seq<char>,
}

impl View for DebugUpvalue {
    type V = DebugUpvalueView;

    open spec fn view(&self) -> DebugUpvalueView {
        DebugUpvalueView { string_size: self.string_size, string: self.string@ }
    }
}

/// The view of a debug block.
pub ghost struct DebugInfoView {
    pub line_count: u32,
    pub locals_count: u32,
    pub upvalue_count_2: u32,
    pub line_begin: u32,
    pub line_end: u32,
    pub path_string_size: u32,
    pub path: Seq<char>,
    pub function_string_size: u32,
    pub function_name: Seq<char>,
    pub lines: Seq<u32>,
    pub locals: Seq<DebugLocalView>,
    pub upvalues: Seq<DebugUpvalueView>,
}

impl View for DebugInfo {
    type V = DebugInfoView;

    open spec fn view(&self) -> DebugInfoView {
        DebugInfoView {
            line_count: self.line_count,
            locals_count: self.locals_count,
            upvalue_count_2: self.upvalue_count_2,
            line_begin: self.line_begin,
            line_end: self.line_end,
            path_string_size: self.path_string_size,
            path: self.path@,
            function_string_size: self.function_string_size,
            function_name: self.function_name@,
            lines: self.lines@,
            locals: seq_view(self.locals@),
            upvalues: seq_view(self.upvalues@),
        }
    }
}

/// The debug block of a prototype that has none: every field empty or zero.
pub open spec fn empty_debug_info() -> DebugInfoView {
    DebugInfoView {
        line_count: 0,
        locals_count: 0,
        upvalue_count_2: 0,
        line_begin: 0,
        line_end: 0,
        path_string_size: 0,
        path: Seq::empty(),
        function_string_size: 0,
        function_name: Seq::empty(),
        lines: Seq::empty(),
        locals: Seq::empty(),
        upvalues: Seq::empty(),
    }
}

impl DebugInfo {
    /// The debug block of a prototype that has none.
    pub fn empty() -> (r: DebugInfo)
        ensures
            r@ == empty_debug_info(),
    {
        let r = DebugInfo {
            line_count: 0,
            locals_count: 0,
            upvalue_count_2: 0,
            line_begin: 0,
            line_end: 0,
            path_string_size: 0,
            path: String::new(),
            function_string_size: 0,
            function_name: String::new(),
            lines: Vec::new(),
            locals: Vec::new(),
            upvalues: Vec::new(),
        };
        assert(r.path@ =~= Seq::<char>::empty());
        assert(r.function_name@ =~= Seq::<char>::empty());
        assert(seq_view(r.locals@) =~= Seq::<DebugLocalView>::empty());
        assert(seq_view(r.upvalues@) =~= Seq::<DebugUpvalueView>::empty());
        r
    }
}

/// Everything of a prototype record but its children.
pub ghost struct FunctionHeadView {
    pub leading_tag: Option<u32>,
    pub upvalue_count: u32,
    pub param_count: u32,
    pub vararg: u8,
    pub slot_count: Option<u32>,
    pub instruction_count: u32,
    pub instructions: Seq<LuaInstruction>,
    pub consts: EngineConstsView,
    pub has_debug_info: bool,
    pub debug_info: DebugInfoView,
    pub function_count: u32,
}

impl FunctionBlock {
    /// Every field but the address and the children.
    pub open spec fn head_view(&self) -> FunctionHeadView {
        FunctionHeadView {
            leading_tag: self.leading_tag,
            upvalue_count: self.upvalue_count,
            param_count: self.param_count,
            vararg: self.vararg,
            slot_count: self.slot_count,
            instruction_count: self.instruction_count,
            instructions: self.instructions@,
            consts: self.consts@,
            has_debug_info: self.has_debug_info,
            debug_info: self.debug_info@,
            function_count: self.function_count,
        }
    }
}

} // verus!
