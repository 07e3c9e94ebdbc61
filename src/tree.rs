//! The prototype tree: reading it from the buffer, and decoding every
//! instruction of it against an addressing-mode table.
use vstd::prelude::*;
use crate::error::LuaError;
use crate::opcodes::{decode_operands, opcode_of, spec_opcode, spec_operands, OpModes};
use crate::parse::{
    debug_info_at, engine_constants_at, header_at, items_at, lemma_items_err, parse_debug_info,
    parse_engine_constants, parse_lua_header, parse_type_constants, type_constants_at,
    view_outcome,
};
use crate::reader::{align_at, outcome, u32_at, u8_at, ByteReader, ReadResult};
use crate::structs::{
    empty_debug_info, DebugInfo, DebugInfoView, DecodedFunction, DecodedInstruction,
    FunctionBlock, FunctionHeadView, LuaHeader, LuaInstruction, LuaSection, LuaSectionType,
    TypeConstsSection, TypeConstsView,
};

verus! {

/// A `u32` field that only one of the two record shapes carries.
pub open spec fn opt_u32_at(d: Seq<u8>, p: int, present: bool) -> ReadResult<Option<u32>> {
    if present {
        match u32_at(d, p) {
            Err(e) => Err(e),
            Ok((v, q)) => Ok((Some(v), q)),
        }
    } else {
        Ok((None, p))
    }
}

/// One instruction word.
pub open spec fn instruction_item(d: Seq<u8>) -> spec_fn(int) -> ReadResult<LuaInstruction> {
    |q: int|
        match u32_at(d, q) {
            Err(e) => Err(e),
            Ok((v, r)) => Ok((LuaInstruction { raw: v }, r)),
        }
}

/// The debug block, read only when the record says it is present.
pub open spec fn debug_block_at(d: Seq<u8>, p: int, present: bool) -> ReadResult<DebugInfoView> {
    if present {
        debug_info_at(d, p)
    } else {
        Ok((empty_debug_info(), p))
    }
}

/// The fields that open a prototype record: on a nested record a leading
/// tag, then upvalue count, parameter count, vararg byte, on the root a slot
/// count, and the instruction count.
pub open spec fn prologue_at(d: Seq<u8>, p: int, root: bool) -> ReadResult<
    (Option<u32>, u32, u32, u8, Option<u32>, u32),
> {
    match opt_u32_at(d, p, !root) {
        Err(e) => Err(e),
        Ok((tag, p1)) => match u32_at(d, p1) {
            Err(e) => Err(e),
            Ok((upv, p2)) => match u32_at(d, p2) {
                Err(e) => Err(e),
                Ok((params, p3)) => match u8_at(d, p3) {
                    Err(e) => Err(e),
                    Ok((vararg, p4)) => match opt_u32_at(d, p4, root) {
                        Err(e) => Err(e),
                        Ok((slots, p5)) => match u32_at(d, p5) {
                            Err(e) => Err(e),
                            Ok((count, p6)) => Ok(((tag, upv, params, vararg, slots, count), p6)),
                        },
                    },
                },
            },
        },
    }
}

/// A prototype record up to its children: the prologue, padding to a 4-byte
/// boundary, the instruction words, the constant pool, the debug flag (a
/// word equal to 1), the debug block if flagged, and the child count.
#[verifier::opaque]
pub open spec fn function_head_at(d: Seq<u8>, p: int, root: bool) -> ReadResult<
    FunctionHeadView,
> {
    match prologue_at(d, p, root) {
        Err(e) => Err(e),
        Ok(((tag, upv, params, vararg, slots, count), p1)) => match align_at(d, p1) {
            Err(e) => Err(e),
            Ok((_, p2)) => match items_at(p2, count as nat, instruction_item(d)) {
                Err(e) => Err(e),
                Ok((code, p3)) => match engine_constants_at(d, p3) {
                    Err(e) => Err(e),
                    Ok((consts, p4)) => match u32_at(d, p4) {
                        Err(e) => Err(e),
                        Ok((flag, p5)) => match debug_block_at(d, p5, flag == 1) {
                            Err(e) => Err(e),
                            Ok((debug, p6)) => match u32_at(d, p6) {
                                Err(e) => Err(e),
                                Ok((children, p7)) => Ok(
                                    (
                                        FunctionHeadView {
                                            leading_tag: tag,
                                            upvalue_count: upv,
                                            param_count: params,
                                            vararg: vararg,
                                            slot_count: slots,
                                            instruction_count: count,
                                            instructions: code,
                                            consts: consts,
                                            has_debug_info: flag == 1,
                                            debug_info: debug,
                                            function_count: children,
                                        },
                                        p7,
                                    ),
                                ),
                            },
                        },
                    },
                },
            },
        },
    }
}

/// Where the whole prototype record at `p` ends (children included), or the
/// first error met while reading it. A record always ends after it starts and
/// within the buffer; the last branches say so to bound the recursion.
pub open spec fn function_end(d: Seq<u8>, p: int, root: bool) -> Result<int, LuaError>
    decreases d.len() - p, 0int, 0nat,
{
    if p < 0 || p > d.len() {
        Err(LuaError::Truncated)
    } else {
        match function_head_at(d, p, root) {
            Err(e) => Err(e),
            Ok((h, q)) => if p < q <= d.len() {
                children_end(d, q, h.function_count as nat)
            } else {
                Err(LuaError::Truncated)
            },
        }
    }
}

/// Where `n` nested records read one after another from `p` end.
pub open spec fn children_end(d: Seq<u8>, p: int, n: nat) -> Result<int, LuaError>
    decreases d.len() - p, 1int, n,
{
    if n == 0 {
        Ok(p)
    } else if p < 0 || p > d.len() {
        Err(LuaError::Truncated)
    } else {
        match function_end(d, p, false) {
            Err(e) => Err(e),
            Ok(q) => if p < q <= d.len() {
                children_end(d, q, (n - 1) as nat)
            } else {
                Err(LuaError::Truncated)
            },
        }
    }
}

/// The children of `f` lie one after another from `q`, in stored order.
pub open spec fn children_placed(d: Seq<u8>, f: FunctionBlock, q: int) -> bool {
    let c = f.child_functions@;
    &&& c.len() > 0 ==> c[0].address == q
    &&& forall|i: int|
        0 <= i < c.len() - 1 ==> function_end(d, #[trigger] c[i].address as int, false) == Ok::<
            int,
            LuaError,
        >(c[i + 1].address as int)
}

/// `f` is the prototype record read from `d` at `f.address`, in the root
/// shape or the nested one, and so is each of its children, recursively.
pub open spec fn function_matches(d: Seq<u8>, f: FunctionBlock, root: bool) -> bool
    decreases f,
{
    match function_head_at(d, f.address as int, root) {
        Err(_) => false,
        Ok((h, q)) => {
            &&& f.head_view() == h
            &&& f.child_functions@.len() == h.function_count
            &&& children_placed(d, f, q)
            &&& forall|i: int|
                0 <= i < f.child_functions@.len() ==> function_matches(
                    d,
                    #[trigger] f.child_functions[i],
                    false,
                )
        },
    }
}

/// Reads a field that only one of the two record shapes carries.
fn read_opt_u32(reader: &mut ByteReader, present: bool) -> (r: Result<Option<u32>, LuaError>)
    ensures
        final(reader).data@ == old(reader).data@,
        outcome(r, final(reader).pos) == opt_u32_at(
            old(reader).data@,
            old(reader).pos as int,
            present,
        ),
{
    if present {
        match reader.read_u32() {
            Ok(v) => Ok(Some(v)),
            Err(e) => Err(e),
        }
    } else {
        Ok(None)
    }
}

/// Reads `n` instruction words.
fn read_instructions(reader: &mut ByteReader, n: u32) -> (r: Result<
    Vec<LuaInstruction>,
    LuaError,
>)
    ensures
        final(reader).data@ == old(reader).data@,
        view_outcome(r, final(reader).pos) == items_at(
            old(reader).pos as int,
            n as nat,
            instruction_item(old(reader).data@),
        ),
        r is Ok ==> old(reader).pos <= final(reader).pos,
        r is Ok && old(reader).pos <= old(reader).data@.len() ==> final(reader).pos
            <= final(reader).data@.len(),
{
    let ghost d = reader.data@;
    let ghost q = reader.pos as int;
    let mut items: Vec<LuaInstruction> = Vec::new();
    let mut i: u32 = 0;
    while i < n
        invariant
            reader.data@ == d,
            d == old(reader).data@,
            q == old(reader).pos,
            i <= n,
            q <= reader.pos,
            q <= d.len() ==> reader.pos <= d.len(),
            items_at(q, i as nat, instruction_item(d)) == ReadResult::<Seq<LuaInstruction>>::Ok(
                (items@, reader.pos as int),
            ),
        decreases n - i,
    {
        let raw = match reader.read_u32() {
            Ok(v) => v,
            Err(e) => {
                proof {
                    lemma_items_err(q, (i + 1) as nat, n as nat, instruction_item(d));
                }
                return Err(e);
            },
        };
        items.push(LuaInstruction { raw });
        i = i + 1;
    }
    Ok(items)
}

/// Reads a prototype record up to its children; the result has no children yet.
fn read_function_head(reader: &mut ByteReader, root: bool) -> (r: Result<FunctionBlock, LuaError>)
    requires
        old(reader).pos <= old(reader).data@.len(),
    ensures
        final(reader).data@ == old(reader).data@,
        match r {
            Ok(f) => {
                &&& function_head_at(old(reader).data@, old(reader).pos as int, root) == ReadResult::<
                    FunctionHeadView,
                >::Ok((f.head_view(), final(reader).pos as int))
                &&& f.address == old(reader).pos
                &&& f.child_functions@.len() == 0
                &&& old(reader).pos < final(reader).pos <= final(reader).data@.len()
            },
            Err(e) => function_head_at(old(reader).data@, old(reader).pos as int, root) == ReadResult::<
                FunctionHeadView,
            >::Err(e),
        },
{
    reveal(function_head_at);
    let address = reader.pos as u64;
    let leading_tag = match read_opt_u32(reader, !root) { Ok(v) => v, Err(e) => return Err(e) };
    let upvalue_count = match reader.read_u32() { Ok(v) => v, Err(e) => return Err(e) };
    let param_count = match reader.read_u32() { Ok(v) => v, Err(e) => return Err(e) };
    let vararg = match reader.read_u8() { Ok(v) => v, Err(e) => return Err(e) };
    let slot_count = match read_opt_u32(reader, root) { Ok(v) => v, Err(e) => return Err(e) };
    let instruction_count = match reader.read_u32() { Ok(v) => v, Err(e) => return Err(e) };
    match reader.align_to_4() {
        Ok(()) => {},
        Err(e) => return Err(e),
    }
    let instructions = match read_instructions(reader, instruction_count) {
        Ok(v) => v,
        Err(e) => return Err(e),
    };
    let consts = match parse_engine_constants(reader) { Ok(v) => v, Err(e) => return Err(e) };
    let flag = match reader.read_u32() { Ok(v) => v, Err(e) => return Err(e) };
    let has_debug_info = flag == 1;
    let debug_info = if has_debug_info {
        match parse_debug_info(reader) {
            Ok(v) => v,
            Err(e) => return Err(e),
        }
    } else {
        DebugInfo::empty()
    };
    let function_count = match reader.read_u32() { Ok(v) => v, Err(e) => return Err(e) };
    Ok(FunctionBlock {
        address,
        leading_tag,
        upvalue_count,
        param_count,
        vararg,
        slot_count,
        instruction_count,
        instructions,
        consts,
        has_debug_info,
        debug_info,
        function_count,
        child_functions: Vec::new(),
    })
}

/// Reads a prototype record and, recursively, its children: the root shape
/// when `root`, the nested shape otherwise.
#[verifier::rlimit(40)]
pub fn parse_function(reader: &mut ByteReader, root: bool) -> (r: Result<FunctionBlock, LuaError>)
    ensures
        final(reader).data@ == old(reader).data@,
        match r {
            Ok(f) => {
                &&& function_matches(old(reader).data@, f, root)
                &&& f.address == old(reader).pos
                &&& function_end(old(reader).data@, old(reader).pos as int, root) == Ok::<
                    int,
                    LuaError,
                >(final(reader).pos as int)
                &&& old(reader).pos < final(reader).pos <= final(reader).data@.len()
            },
            Err(e) => function_end(old(reader).data@, old(reader).pos as int, root) == Err::<
                int,
                LuaError,
            >(e),
        },
    decreases old(reader).data@.len() - old(reader).pos,
{
    let ghost d = reader.data@;
    let ghost p = reader.pos as int;
    if reader.pos > reader.data.len() {
        return Err(LuaError::Truncated);
    }
    let mut f = match read_function_head(reader, root) {
        Ok(f) => f,
        Err(e) => return Err(e),
    };
    let ghost q = reader.pos as int;
    let ghost h = f.head_view();
    let n = f.function_count;
    let mut children: Vec<FunctionBlock> = Vec::new();
    let mut i: u32 = 0;
    while i < n
        invariant
            reader.data@ == d,
            d == old(reader).data@,
            p == old(reader).pos,
            0 <= p < q <= reader.pos <= d.len(),
            i <= n,
            children@.len() == i,
            function_head_at(d, p, root) == ReadResult::<FunctionHeadView>::Ok((h, q)),
            n == h.function_count,
            children_end(d, q, n as nat) == children_end(d, reader.pos as int, (n - i) as nat),
            i == 0 ==> reader.pos == q,
            i > 0 ==> children@[0].address == q,
            i > 0 ==> function_end(d, children@[i - 1].address as int, false) == Ok::<
                int,
                LuaError,
            >(reader.pos as int),
            forall|k: int|
                0 <= k < i - 1 ==> function_end(d, #[trigger] children@[k].address as int, false)
                    == Ok::<int, LuaError>(children@[k + 1].address as int),
            forall|k: int| 0 <= k < i ==> function_matches(d, #[trigger] children@[k], false),
        decreases n - i,
    {
        let child = match parse_function(reader, false) {
            Ok(c) => c,
            Err(e) => return Err(e),
        };
        children.push(child);
        i = i + 1;
    }
    f.child_functions = children;
    assert(f.head_view() == h);
    Ok(f)
}

/// A read prototype has exactly as many children as its child count says
/// (none at all when the count is zero), in stored order: the first starts
/// where the record's own fields end and each next one where the one before
/// it ends; each child is itself a read nested record.
pub proof fn lemma_children_in_order(d: Seq<u8>, f: FunctionBlock, root: bool)
    requires
        function_matches(d, f, root),
    ensures
        function_head_at(d, f.address as int, root) is Ok,
        f.child_functions@.len() == f.function_count,
        f.function_count == 0 ==> f.child_functions@ == Seq::<FunctionBlock>::empty(),
        f.child_functions@.len() > 0 ==> f.child_functions@[0].address == function_head_at(
            d,
            f.address as int,
            root,
        )->Ok_0.1,
        forall|i: int|
            0 <= i < f.child_functions@.len() - 1 ==> function_end(
                d,
                #[trigger] f.child_functions@[i].address as int,
                false,
            ) == Ok::<int, LuaError>(f.child_functions@[i + 1].address as int),
        forall|i: int|
            0 <= i < f.child_functions@.len() ==> function_matches(
                d,
                #[trigger] f.child_functions@[i],
                false,
            ),
{
    if f.function_count == 0 {
        assert(f.child_functions@ =~= Seq::<FunctionBlock>::empty());
    }
    assert forall|i: int| 0 <= i < f.child_functions@.len() implies function_matches(
        d,
        #[trigger] f.child_functions@[i],
        false,
    ) by {
        assert(f.child_functions[i] == f.child_functions@[i]);
    }
}

/// `di` is `ins` decoded under the table entry of its opcode.
pub open spec fn instruction_decoded(
    ins: LuaInstruction,
    di: DecodedInstruction,
    table: Seq<OpModes>,
) -> bool {
    let op = spec_opcode(ins.raw);
    &&& di.raw == ins.raw
    &&& di.opcode == op
    &&& (op as int) < table.len()
    &&& di.modes == table[op as int]
    &&& di.args@ == spec_operands(ins.raw, table[op as int])
}

/// `df` holds, for `f` and each of its descendants in the same shape, every
/// instruction decoded in stored order.
pub open spec fn function_decoded(f: FunctionBlock, df: DecodedFunction, table: Seq<OpModes>) -> bool
    decreases f,
{
    &&& df.instructions@.len() == f.instructions@.len()
    &&& forall|k: int|
        0 <= k < f.instructions@.len() ==> instruction_decoded(
            #[trigger] f.instructions@[k],
            df.instructions@[k],
            table,
        )
    &&& df.children@.len() == f.child_functions@.len()
    &&& forall|k: int|
        0 <= k < f.child_functions@.len() ==> function_decoded(
            #[trigger] f.child_functions[k],
            df.children@[k],
            table,
        )
}

/// Every opcode in the tree of `f` is below `n`.
pub open spec fn opcodes_below(f: FunctionBlock, n: int) -> bool
    decreases f,
{
    &&& forall|k: int|
        0 <= k < f.instructions@.len() ==> (spec_opcode(#[trigger] f.instructions@[k].raw) as int)
            < n
    &&& forall|k: int|
        0 <= k < f.child_functions@.len() ==> opcodes_below(#[trigger] f.child_functions[k], n)
}

/// An opcode has seven bits.
pub proof fn lemma_opcode_bound(raw: u32)
    ensures
        spec_opcode(raw) < 128,
{
    assert(((raw >> 25u32) & 0x7Fu32) < 128) by (bit_vector);
}

/// A table that covers the whole 7-bit opcode space knows every opcode.
pub proof fn lemma_full_table_knows_all(f: FunctionBlock, n: int)
    requires
        n >= 128,
    ensures
        opcodes_below(f, n),
    decreases f,
{
    assert forall|k: int| 0 <= k < f.instructions@.len() implies (spec_opcode(
        #[trigger] f.instructions@[k].raw,
    ) as int) < n by {
        lemma_opcode_bound(f.instructions@[k].raw);
    }
    assert forall|k: int| 0 <= k < f.child_functions@.len() implies opcodes_below(
        #[trigger] f.child_functions[k],
        n,
    ) by {
        lemma_full_table_knows_all(f.child_functions[k], n);
    }
}

/// Decodes one instruction word under `table`, looked up by its opcode.
pub fn decode_instruction(ins: LuaInstruction, table: &Vec<OpModes>) -> (r: Result<
    DecodedInstruction,
    LuaError,
>)
    ensures
        match r {
            Ok(di) => instruction_decoded(ins, di, table@),
            Err(e) => e == LuaError::UnknownOpcode(spec_opcode(ins.raw)) && spec_opcode(ins.raw)
                >= table@.len(),
        },
{
    let opcode = opcode_of(ins.raw);
    if opcode as usize >= table.len() {
        return Err(LuaError::UnknownOpcode(opcode));
    }
    let modes = table[opcode as usize];
    let args = decode_operands(ins.raw, modes);
    Ok(DecodedInstruction { raw: ins.raw, opcode, modes, args })
}

/// Decodes every instruction of `f` and of its descendants, depth first, in
/// stored order. Fails exactly when some opcode in the tree has no table entry.
pub fn parse_instructions(f: &FunctionBlock, table: &Vec<OpModes>) -> (r: Result<
    DecodedFunction,
    LuaError,
>)
    ensures
        match r {
            Ok(df) => function_decoded(*f, df, table@),
            Err(e) => !opcodes_below(*f, table@.len() as int) && (e matches LuaError::UnknownOpcode(
                op,
            ) && op >= table@.len()),
        },
        opcodes_below(*f, table@.len() as int) <==> r is Ok,
    decreases *f,
{
    let mut instructions: Vec<DecodedInstruction> = Vec::new();
    let mut i: usize = 0;
    while i < f.instructions.len()
        invariant
            i <= f.instructions@.len(),
            instructions@.len() == i,
            forall|k: int|
                0 <= k < i ==> instruction_decoded(
                    #[trigger] f.instructions@[k],
                    instructions@[k],
                    table@,
                ),
            forall|k: int|
                0 <= k < i ==> (spec_opcode(#[trigger] f.instructions@[k].raw) as int)
                    < table@.len(),
        decreases f.instructions@.len() - i,
    {
        match decode_instruction(f.instructions[i], table) {
            Ok(di) => instructions.push(di),
            Err(e) => return Err(e),
        }
        i = i + 1;
    }
    let mut children: Vec<DecodedFunction> = Vec::new();
    let mut j: usize = 0;
    while j < f.child_functions.len()
        invariant
            j <= f.child_functions@.len(),
            instructions@.len() == f.instructions@.len(),
            forall|k: int|
                0 <= k < f.instructions@.len() ==> instruction_decoded(
                    #[trigger] f.instructions@[k],
                    instructions@[k],
                    table@,
                ),
            forall|k: int|
                0 <= k < f.instructions@.len() ==> (spec_opcode(#[trigger] f.instructions@[k].raw)
                    as int) < table@.len(),
            children@.len() == j,
            forall|k: int|
                0 <= k < j ==> function_decoded(#[trigger] f.child_functions[k], children@[k], table@),
            forall|k: int|
                0 <= k < j ==> opcodes_below(#[trigger] f.child_functions[k], table@.len() as int),
        decreases f.child_functions@.len() - j,
    {
        match parse_instructions(&f.child_functions[j], table) {
            Ok(dc) => children.push(dc),
            Err(e) => return Err(e),
        }
        j = j + 1;
    }
    Ok(DecodedFunction { instructions, children })
}

/// Reads one section: the type pool, or the root prototype and its tree.
pub fn parse_lua_section(reader: &mut ByteReader, sec_type: LuaSectionType) -> (r: Result<
    LuaSection,
    LuaError,
>)
    ensures
        final(reader).data@ == old(reader).data@,
        sec_type == LuaSectionType::TypeConstants ==> match r {
            Ok(LuaSection::TypeConstants(t)) => type_constants_at(
                old(reader).data@,
                old(reader).pos as int,
            ) == ReadResult::<TypeConstsView>::Ok((t@, final(reader).pos as int)),
            Ok(_) => false,
            Err(e) => type_constants_at(old(reader).data@, old(reader).pos as int)
                == ReadResult::<TypeConstsView>::Err(e),
        },
        sec_type == LuaSectionType::FunctionBlock ==> match r {
            Ok(LuaSection::FunctionBlock(f)) => {
                &&& function_matches(old(reader).data@, *f, true)
                &&& f.address == old(reader).pos
                &&& function_end(old(reader).data@, old(reader).pos as int, true) == Ok::<
                    int,
                    LuaError,
                >(final(reader).pos as int)
            },
            Ok(_) => false,
            Err(e) => function_end(old(reader).data@, old(reader).pos as int, true) == Err::<
                int,
                LuaError,
            >(e),
        },
{
    match sec_type {
        LuaSectionType::TypeConstants => match parse_type_constants(reader) {
            Ok(t) => Ok(LuaSection::TypeConstants(t)),
            Err(e) => Err(e),
        },
        LuaSectionType::FunctionBlock => match parse_function(reader, true) {
            Ok(f) => Ok(LuaSection::FunctionBlock(Box::new(f))),
            Err(e) => Err(e),
        },
    }
}

/// A whole container, read and decoded.
#[derive(Debug)]
pub struct LuaScript {
    pub header: LuaHeader,
    pub type_constants: TypeConstsSection,
    pub root: FunctionBlock,
    pub decoded: DecodedFunction,
}

/// The structure of a whole container: the header, the type pool, and where
/// the root prototype starts and ends; or the first error met.
pub open spec fn script_layout(d: Seq<u8>) -> Result<(LuaHeader, TypeConstsView, int, int), LuaError> {
    match header_at(d, 0) {
        Err(e) => Err(e),
        Ok((h, p1)) => match type_constants_at(d, p1) {
            Err(e) => Err(e),
            Ok((t, p2)) => match function_end(d, p2, true) {
                Err(e) => Err(e),
                Ok(p3) => Ok((h, t, p2, p3)),
            },
        },
    }
}

/// Reads a whole container from `data` (header, type pool, prototype tree)
/// and decodes every instruction of the tree under `table`. Bytes after the
/// root prototype are not read.
pub fn parse_script(data: Vec<u8>, table: &Vec<OpModes>) -> (r: Result<LuaScript, LuaError>)
    ensures
        match r {
            Ok(s) => {
                &&& script_layout(data@) is Ok
                &&& s.header == script_layout(data@)->Ok_0.0
                &&& s.type_constants@ == script_layout(data@)->Ok_0.1
                &&& s.root.address == script_layout(data@)->Ok_0.2
                &&& function_matches(data@, s.root, true)
                &&& function_decoded(s.root, s.decoded, table@)
            },
            Err(e) => script_layout(data@) == Err::<(LuaHeader, TypeConstsView, int, int), LuaError>(e)
                || (script_layout(data@) is Ok && (e matches LuaError::UnknownOpcode(op) && op
                >= table@.len())),
        },
        script_layout(data@) is Ok && table@.len() >= 128 ==> r is Ok,
{
    let ghost d = data@;
    let mut reader = ByteReader::new(data);
    let header = match parse_lua_header(&mut reader) {
        Ok(h) => h,
        Err(e) => return Err(e),
    };
    let type_constants = match parse_type_constants(&mut reader) {
        Ok(t) => t,
        Err(e) => return Err(e),
    };
    let root = match parse_function(&mut reader, true) {
        Ok(f) => f,
        Err(e) => return Err(e),
    };
    proof {
        if table@.len() >= 128 {
            lemma_full_table_knows_all(root, table@.len() as int);
        }
    }
    let decoded = match parse_instructions(&root, table) {
        Ok(df) => df,
        Err(e) => return Err(e),
    };
    Ok(LuaScript { header, type_constants, root, decoded })
}

} // verus!
