//! Readers for the header, the two constant pools and the debug block, each
//! stated against a spec-level reader of the same bytes.
use vstd::prelude::*;
use crate::error::LuaError;
use crate::reader::{
    fits, i32_at, i64_at, outcome, text_at, u32_at, u64_at, u8_at, ByteReader, ReadResult,
};
use crate::structs::{
    lemma_seq_view_push, seq_view, BungieConstant, BungieConstantEnum, BungieConstantString,
    BungieConstsSection, ConstantView, DebugInfo, DebugInfoView, DebugLocal, DebugUpvalue, DebugLocalView, DebugUpvalueView,
    EngineConstantView, EngineConstsView, EngineValue, LuaConstant, LuaEndian, LuaHeader,
    LuaNumberType, TypeConstsSection, TypeConstsView,
};

verus! {

/// Version byte of Lua 5.1.
pub const LUA_VERSION: u8 = 0x51;

/// The only container revision this decoder reads.
pub const LUA_FORMAT: u8 = 0x0E;

/// Whether the four bytes at `p` are the magic tag `ESC 'L' 'u' 'a'`.
pub open spec fn has_magic(d: Seq<u8>, p: int) -> bool {
    d[p] == 0x1B && d[p + 1] == 0x4C && d[p + 2] == 0x75 && d[p + 3] == 0x61
}

/// The byte order that the header's endianness byte names.
pub open spec fn endian_of(b: u8) -> Option<LuaEndian> {
    if b == 0 {
        Some(LuaEndian::Big)
    } else if b == 1 {
        Some(LuaEndian::Little)
    } else {
        None
    }
}

/// The number type that the header's number-type byte names.
pub open spec fn number_type_of(b: u8) -> Option<LuaNumberType> {
    if b == 0 {
        Some(LuaNumberType::Float)
    } else if b == 1 {
        Some(LuaNumberType::Integer)
    } else {
        None
    }
}

/// The header at `p`: the magic tag is checked first, then the version, then
/// the format, each as soon as its byte is there; then the remaining bytes.
pub open spec fn header_at(d: Seq<u8>, p: int) -> ReadResult<LuaHeader> {
    if !fits(d, p, 4) {
        Err(LuaError::Truncated)
    } else if !has_magic(d, p) {
        Err(LuaError::BadMagic)
    } else if !fits(d, p, 5) {
        Err(LuaError::Truncated)
    } else if d[p + 4] != LUA_VERSION {
        Err(LuaError::UnsupportedVersion(d[p + 4]))
    } else if !fits(d, p, 6) {
        Err(LuaError::Truncated)
    } else if d[p + 5] != LUA_FORMAT {
        Err(LuaError::UnsupportedFormat(d[p + 5]))
    } else if !fits(d, p, 14) {
        Err(LuaError::Truncated)
    } else if endian_of(d[p + 6]) is None {
        Err(LuaError::UnknownEndianness(d[p + 6]))
    } else if number_type_of(d[p + 11]) is None {
        Err(LuaError::UnknownNumberType(d[p + 11]))
    } else {
        Ok((
            LuaHeader {
                version: d[p + 4],
                format: d[p + 5],
                endianness: endian_of(d[p + 6]).unwrap(),
                int_size: d[p + 7],
                size_t: d[p + 8],
                instruction_size: d[p + 9],
                number_size: d[p + 10],
                number_type: number_type_of(d[p + 11]).unwrap(),
                integral_flag: d[p + 12],
                unk: d[p + 13],
            },
            p + 14,
        ))
    }
}

/// `n` records read one after another from `p`, each by `item`.
pub open spec fn items_at<T>(p: int, n: nat, item: spec_fn(int) -> ReadResult<T>) -> ReadResult<
    Seq<T>,
>
    decreases n,
{
    if n == 0 {
        Ok((Seq::empty(), p))
    } else {
        match items_at(p, (n - 1) as nat, item) {
            Err(e) => Err(e),
            Ok((s, q)) => match item(q) {
                Err(e) => Err(e),
                Ok((x, r)) => Ok((s.push(x), r)),
            },
        }
    }
}

/// Once a sequence of records fails, reading more of them fails the same way.
pub proof fn lemma_items_err<T>(p: int, i: nat, n: nat, item: spec_fn(int) -> ReadResult<T>)
    requires
        i <= n,
        items_at(p, i, item) is Err,
    ensures
        items_at(p, n, item) == items_at(p, i, item),
    decreases n - i,
{
    if n > i {
        lemma_items_err(p, i, (n - 1) as nat, item);
    }
}

/// One type-pool entry: tag, length, text.
pub open spec fn type_constant_at(d: Seq<u8>, p: int) -> ReadResult<ConstantView> {
    match u32_at(d, p) {
        Err(e) => Err(e),
        Ok((t, p1)) => match u32_at(d, p1) {
            Err(e) => Err(e),
            Ok((n, p2)) => match text_at(d, p2, n as int) {
                Err(e) => Err(e),
                Ok((s, p3)) => Ok((ConstantView { constant_type: t, string_size: n, text: s }, p3)),
            },
        },
    }
}

/// Reads one type-pool entry, as a record reader.
pub open spec fn type_constant_item(d: Seq<u8>) -> spec_fn(int) -> ReadResult<ConstantView> {
    |q: int| type_constant_at(d, q)
}

/// The type pool: a count, then that many entries.
pub open spec fn type_constants_at(d: Seq<u8>, p: int) -> ReadResult<TypeConstsView> {
    match u32_at(d, p) {
        Err(e) => Err(e),
        Ok((n, q)) => match items_at(q, n as nat, type_constant_item(d)) {
            Err(e) => Err(e),
            Ok((s, r)) => Ok((TypeConstsView { constants_amount: n, constants: s }, r)),
        },
    }
}

/// The payload of an engine constant whose tag is `tag`.
pub open spec fn engine_value_at(d: Seq<u8>, p: int, tag: u8) -> ReadResult<EngineValue> {
    if tag == 0 {
        if fits(d, p, 0) {
            Ok((EngineValue::Nil, p))
        } else {
            Err(LuaError::Truncated)
        }
    } else if tag == 1 {
        match u8_at(d, p) {
            Err(e) => Err(e),
            Ok((b, q)) => Ok((EngineValue::Bool(b), q)),
        }
    } else if tag == 2 {
        match i64_at(d, p) {
            Err(e) => Err(e),
            Ok((v, q)) => Ok((EngineValue::LightUserData(v), q)),
        }
    } else if tag == 3 {
        match u32_at(d, p) {
            Err(e) => Err(e),
            Ok((v, q)) => Ok((EngineValue::Number(v), q)),
        }
    } else if tag == 4 {
        match u32_at(d, p) {
            Err(e) => Err(e),
            Ok((n, q)) => match text_at(d, q, n as int) {
                Err(e) => Err(e),
                Ok((s, r)) => Ok((EngineValue::Str(n, s), r)),
            },
        }
    } else if tag == 11 {
        match u64_at(d, p) {
            Err(e) => Err(e),
            Ok((v, q)) => Ok((EngineValue::U64(v), q)),
        }
    } else {
        Err(LuaError::UnknownConstantTag(tag))
    }
}

/// One engine constant: a tag byte and its payload.
pub open spec fn engine_constant_at(d: Seq<u8>, p: int) -> ReadResult<EngineConstantView> {
    match u8_at(d, p) {
        Err(e) => Err(e),
        Ok((t, q)) => match engine_value_at(d, q, t) {
            Err(e) => Err(e),
            Ok((v, r)) => Ok((EngineConstantView { constant_type: t, value: v }, r)),
        },
    }
}

/// Reads one engine constant, as a record reader.
pub open spec fn engine_constant_item(d: Seq<u8>) -> spec_fn(int) -> ReadResult<
    EngineConstantView,
> {
    |q: int| engine_constant_at(d, q)
}

/// A prototype's constant pool: a count, then that many constants.
pub open spec fn engine_constants_at(d: Seq<u8>, p: int) -> ReadResult<EngineConstsView> {
    match u32_at(d, p) {
        Err(e) => Err(e),
        Ok((n, q)) => match items_at(q, n as nat, engine_constant_item(d)) {
            Err(e) => Err(e),
            Ok((s, r)) => Ok((EngineConstsView { constants_amount: n, constants: s }, r)),
        },
    }
}

/// Reads one big-endian word, as a record reader.
pub open spec fn u32_item(d: Seq<u8>) -> spec_fn(int) -> ReadResult<u32> {
    |q: int| u32_at(d, q)
}

/// One local: name length, name, start, end.
pub open spec fn debug_local_at(d: Seq<u8>, p: int) -> ReadResult<DebugLocalView> {
    match u32_at(d, p) {
        Err(e) => Err(e),
        Ok((n, p1)) => match text_at(d, p1, n as int) {
            Err(e) => Err(e),
            Ok((s, p2)) => match i32_at(d, p2) {
                Err(e) => Err(e),
                Ok((a, p3)) => match i32_at(d, p3) {
                    Err(e) => Err(e),
                    Ok((b, p4)) => Ok(
                        (DebugLocalView { string_size: n, local_name: s, start: a, end: b }, p4),
                    ),
                },
            },
        },
    }
}

/// Reads one debug local, as a record reader.
pub open spec fn debug_local_item(d: Seq<u8>) -> spec_fn(int) -> ReadResult<DebugLocalView> {
    |q: int| debug_local_at(d, q)
}

/// One upvalue name: length, text.
pub open spec fn debug_upvalue_at(d: Seq<u8>, p: int) -> ReadResult<DebugUpvalueView> {
    match u32_at(d, p) {
        Err(e) => Err(e),
        Ok((n, p1)) => match text_at(d, p1, n as int) {
            Err(e) => Err(e),
            Ok((s, p2)) => Ok((DebugUpvalueView { string_size: n, string: s }, p2)),
        },
    }
}

/// Reads one upvalue name, as a record reader.
pub open spec fn debug_upvalue_item(d: Seq<u8>) -> spec_fn(int) -> ReadResult<DebugUpvalueView> {
    |q: int| debug_upvalue_at(d, q)
}

/// The counts and line range that open a debug block.
pub open spec fn debug_counts_at(d: Seq<u8>, p: int) -> ReadResult<(u32, u32, u32, u32, u32)> {
    match u32_at(d, p) {
        Err(e) => Err(e),
        Ok((a, p1)) => match u32_at(d, p1) {
            Err(e) => Err(e),
            Ok((b, p2)) => match u32_at(d, p2) {
                Err(e) => Err(e),
                Ok((c, p3)) => match u32_at(d, p3) {
                    Err(e) => Err(e),
                    Ok((x, p4)) => match u32_at(d, p4) {
                        Err(e) => Err(e),
                        Ok((y, p5)) => Ok(((a, b, c, x, y), p5)),
                    },
                },
            },
        },
    }
}

/// A length-prefixed text: the length and the text.
pub open spec fn sized_text_at(d: Seq<u8>, p: int) -> ReadResult<(u32, Seq<char>)> {
    match u32_at(d, p) {
        Err(e) => Err(e),
        Ok((n, q)) => match text_at(d, q, n as int) {
            Err(e) => Err(e),
            Ok((s, r)) => Ok(((n, s), r)),
        },
    }
}

/// A debug block: counts and line range, source path, function name, then
/// the lines, the locals and the upvalue names.
pub open spec fn debug_info_at(d: Seq<u8>, p: int) -> ReadResult<DebugInfoView> {
    match debug_counts_at(d, p) {
        Err(e) => Err(e),
        Ok(((lc, loc, uc, lb, le), p1)) => match sized_text_at(d, p1) {
            Err(e) => Err(e),
            Ok(((ps, path), p2)) => match sized_text_at(d, p2) {
                Err(e) => Err(e),
                Ok(((fs, name), p3)) => match items_at(p3, lc as nat, u32_item(d)) {
                    Err(e) => Err(e),
                    Ok((lines, p4)) => match items_at(p4, loc as nat, debug_local_item(d)) {
                        Err(e) => Err(e),
                        Ok((locals, p5)) => match items_at(p5, uc as nat, debug_upvalue_item(d)) {
                            Err(e) => Err(e),
                            Ok((ups, p6)) => Ok(
                                (
                                    DebugInfoView {
                                        line_count: lc,
                                        locals_count: loc,
                                        upvalue_count_2: uc,
                                        line_begin: lb,
                                        line_end: le,
                                        path_string_size: ps,
                                        path: path,
                                        function_string_size: fs,
                                        function_name: name,
                                        lines: lines,
                                        locals: locals,
                                        upvalues: ups,
                                    },
                                    p6,
                                ),
                            ),
                        },
                    },
                },
            },
        },
    }
}

/// Maps an executable result to its view and the position after it.
pub open spec fn view_outcome<T: View>(r: Result<T, LuaError>, end: usize) -> ReadResult<T::V> {
    match r {
        Ok(v) => Ok((v@, end as int)),
        Err(e) => Err(e),
    }
}

/// Whether a read from `start` left the cursor inside the buffer, not before `start`.
pub open spec fn advanced<T>(r: Result<T, LuaError>, start: usize, rd: ByteReader) -> bool {
    r is Ok ==> start <= rd.pos && (start <= rd.data@.len() ==> rd.pos <= rd.data@.len())
}

/// Reads and checks the header.
pub fn parse_lua_header(reader: &mut ByteReader) -> (r: Result<LuaHeader, LuaError>)
    ensures
        final(reader).data@ == old(reader).data@,
        outcome(r, final(reader).pos) == header_at(old(reader).data@, old(reader).pos as int),
{
    let ghost d = reader.data@;
    let ghost p = reader.pos as int;
    let m0 = match reader.read_u8() { Ok(b) => b, Err(e) => return Err(e) };
    let m1 = match reader.read_u8() { Ok(b) => b, Err(e) => return Err(e) };
    let m2 = match reader.read_u8() { Ok(b) => b, Err(e) => return Err(e) };
    let m3 = match reader.read_u8() { Ok(b) => b, Err(e) => return Err(e) };
    if !(m0 == 0x1B && m1 == 0x4C && m2 == 0x75 && m3 == 0x61) {
        return Err(LuaError::BadMagic);
    }
    let version = match reader.read_u8() { Ok(b) => b, Err(e) => return Err(e) };
    if version != LUA_VERSION {
        return Err(LuaError::UnsupportedVersion(version));
    }
    let format = match reader.read_u8() { Ok(b) => b, Err(e) => return Err(e) };
    if format != LUA_FORMAT {
        return Err(LuaError::UnsupportedFormat(format));
    }
    let endian = match reader.read_u8() { Ok(b) => b, Err(e) => return Err(e) };
    let int_size = match reader.read_u8() { Ok(b) => b, Err(e) => return Err(e) };
    let size_t = match reader.read_u8() { Ok(b) => b, Err(e) => return Err(e) };
    let instruction_size = match reader.read_u8() { Ok(b) => b, Err(e) => return Err(e) };
    let number_size = match reader.read_u8() { Ok(b) => b, Err(e) => return Err(e) };
    let number_type = match reader.read_u8() { Ok(b) => b, Err(e) => return Err(e) };
    let integral_flag = match reader.read_u8() { Ok(b) => b, Err(e) => return Err(e) };
    let unk = match reader.read_u8() { Ok(b) => b, Err(e) => return Err(e) };
    let endianness = if endian == 0 {
        LuaEndian::Big
    } else if endian == 1 {
        LuaEndian::Little
    } else {
        return Err(LuaError::UnknownEndianness(endian));
    };
    let number_type = if number_type == 0 {
        LuaNumberType::Float
    } else if number_type == 1 {
        LuaNumberType::Integer
    } else {
        return Err(LuaError::UnknownNumberType(number_type));
    };
    Ok(LuaHeader {
        version,
        format,
        endianness,
        int_size,
        size_t,
        instruction_size,
        number_size,
        number_type,
        integral_flag,
        unk,
    })
}

/// A header whose magic tag is right but whose version byte is not the Lua 5.1
/// marker is rejected as an unsupported version; one whose magic and version
/// are right but whose format byte is not the supported revision is rejected
/// as an unsupported format. Neither looks at the bytes after the failing one.
pub proof fn lemma_header_gate(d: Seq<u8>)
    requires
        d.len() >= 6,
        has_magic(d, 0),
    ensures
        d[4] != LUA_VERSION ==> header_at(d, 0) == ReadResult::<LuaHeader>::Err(
            LuaError::UnsupportedVersion(d[4]),
        ),
        d[4] == LUA_VERSION && d[5] != LUA_FORMAT ==> header_at(d, 0) == ReadResult::<
            LuaHeader,
        >::Err(LuaError::UnsupportedFormat(d[5])),
{
}

/// Reads one type-pool entry.
pub fn parse_lua_constant(reader: &mut ByteReader) -> (r: Result<LuaConstant, LuaError>)
    ensures
        final(reader).data@ == old(reader).data@,
        view_outcome(r, final(reader).pos) == type_constant_at(
            old(reader).data@,
            old(reader).pos as int,
        ),
        advanced(r, old(reader).pos, *final(reader)),
{
    let constant_type = match reader.read_u32() { Ok(v) => v, Err(e) => return Err(e) };
    let string_size = match reader.read_u32() { Ok(v) => v, Err(e) => return Err(e) };
    let const_string = match reader.read_text(string_size) { Ok(s) => s, Err(e) => return Err(e) };
    Ok(LuaConstant { constant_type, string_size, const_string })
}

/// Reads the type pool: a count, then that many entries.
pub fn parse_type_constants(reader: &mut ByteReader) -> (r: Result<TypeConstsSection, LuaError>)
    ensures
        final(reader).data@ == old(reader).data@,
        view_outcome(r, final(reader).pos) == type_constants_at(
            old(reader).data@,
            old(reader).pos as int,
        ),
        advanced(r, old(reader).pos, *final(reader)),
{
    let ghost d = reader.data@;
    let ghost p0 = reader.pos;
    let n = match reader.read_u32() { Ok(v) => v, Err(e) => return Err(e) };
    let ghost q = reader.pos as int;
    let mut constants: Vec<LuaConstant> = Vec::new();
    let mut i: u32 = 0;
    assert(seq_view(constants@) =~= Seq::empty());
    while i < n
        invariant
            reader.data@ == d,
            d == old(reader).data@,
            p0 == old(reader).pos,
            i <= n,
            p0 <= reader.pos <= d.len(),
            u32_at(d, p0 as int) == ReadResult::<u32>::Ok((n, q)),
            items_at(q, i as nat, type_constant_item(d)) == ReadResult::<Seq<ConstantView>>::Ok(
                (seq_view(constants@), reader.pos as int),
            ),
        decreases n - i,
    {
        let c = match parse_lua_constant(reader) {
            Ok(c) => c,
            Err(e) => {
                proof {
                    lemma_items_err(q, (i + 1) as nat, n as nat, type_constant_item(d));
                }
                return Err(e);
            },
        };
        proof {
            lemma_seq_view_push(constants@, c);
        }
        constants.push(c);
        i = i + 1;
    }
    Ok(TypeConstsSection { constants_amount: n, constants })
}

/// Reads the payload of an engine constant whose tag is `tag`.
pub fn parse_engine_value(reader: &mut ByteReader, tag: u8) -> (r: Result<
    BungieConstantEnum,
    LuaError,
>)
    ensures
        final(reader).data@ == old(reader).data@,
        view_outcome(r, final(reader).pos) == engine_value_at(
            old(reader).data@,
            old(reader).pos as int,
            tag,
        ),
        advanced(r, old(reader).pos, *final(reader)),
{
    if tag == 0 {
        if reader.pos > reader.data.len() {
            return Err(LuaError::Truncated);
        }
        Ok(BungieConstantEnum::Nil)
    } else if tag == 1 {
        match reader.read_u8() {
            Ok(b) => Ok(BungieConstantEnum::Bool(b)),
            Err(e) => Err(e),
        }
    } else if tag == 2 {
        match reader.read_i64() {
            Ok(v) => Ok(BungieConstantEnum::LightUserData(v)),
            Err(e) => Err(e),
        }
    } else if tag == 3 {
        match reader.read_u32() {
            Ok(v) => Ok(BungieConstantEnum::Number(v)),
            Err(e) => Err(e),
        }
    } else if tag == 4 {
        let n = match reader.read_u32() { Ok(v) => v, Err(e) => return Err(e) };
        match reader.read_text(n) {
            Ok(s) => Ok(BungieConstantEnum::String(BungieConstantString { string_size: n, const_string: s })),
            Err(e) => Err(e),
        }
    } else if tag == 11 {
        match reader.read_u64() {
            Ok(v) => Ok(BungieConstantEnum::U64(v)),
            Err(e) => Err(e),
        }
    } else {
        Err(LuaError::UnknownConstantTag(tag))
    }
}

/// Reads one engine constant: a tag byte, then its payload.
pub fn parse_engine_constant(reader: &mut ByteReader) -> (r: Result<BungieConstant, LuaError>)
    ensures
        final(reader).data@ == old(reader).data@,
        view_outcome(r, final(reader).pos) == engine_constant_at(
            old(reader).data@,
            old(reader).pos as int,
        ),
        advanced(r, old(reader).pos, *final(reader)),
{
    let constant_type = match reader.read_u8() { Ok(v) => v, Err(e) => return Err(e) };
    let constant = match parse_engine_value(reader, constant_type) {
        Ok(c) => c,
        Err(e) => return Err(e),
    };
    Ok(BungieConstant { constant_type, constant })
}

/// An engine constant whose tag is none of the known ones fails with that
/// tag, whatever follows it, even nothing.
pub proof fn lemma_unknown_tag(d: Seq<u8>, p: int)
    requires
        0 <= p < d.len(),
        !(d[p] == 0 || d[p] == 1 || d[p] == 2 || d[p] == 3 || d[p] == 4 || d[p] == 11),
    ensures
        engine_constant_at(d, p) == ReadResult::<EngineConstantView>::Err(
            LuaError::UnknownConstantTag(d[p]),
        ),
{
}

/// Reads a prototype's constant pool: a count, then that many constants.
pub fn parse_engine_constants(reader: &mut ByteReader) -> (r: Result<
    BungieConstsSection,
    LuaError,
>)
    ensures
        final(reader).data@ == old(reader).data@,
        view_outcome(r, final(reader).pos) == engine_constants_at(
            old(reader).data@,
            old(reader).pos as int,
        ),
        advanced(r, old(reader).pos, *final(reader)),
{
    let ghost d = reader.data@;
    let ghost p0 = reader.pos;
    let n = match reader.read_u32() { Ok(v) => v, Err(e) => return Err(e) };
    let ghost q = reader.pos as int;
    let mut constants: Vec<BungieConstant> = Vec::new();
    let mut i: u32 = 0;
    assert(seq_view(constants@) =~= Seq::empty());
    while i < n
        invariant
            reader.data@ == d,
            d == old(reader).data@,
            p0 == old(reader).pos,
            i <= n,
            p0 <= reader.pos <= d.len(),
            u32_at(d, p0 as int) == ReadResult::<u32>::Ok((n, q)),
            items_at(q, i as nat, engine_constant_item(d)) == ReadResult::<
                Seq<EngineConstantView>,
            >::Ok((seq_view(constants@), reader.pos as int)),
        decreases n - i,
    {
        let c = match parse_engine_constant(reader) {
            Ok(c) => c,
            Err(e) => {
                proof {
                    lemma_items_err(q, (i + 1) as nat, n as nat, engine_constant_item(d));
                }
                return Err(e);
            },
        };
        proof {
            lemma_seq_view_push(constants@, c);
        }
        constants.push(c);
        i = i + 1;
    }
    Ok(BungieConstsSection { constants_amount: n, constants })
}

/// Reads one local of a debug block.
pub fn parse_debug_local(reader: &mut ByteReader) -> (r: Result<DebugLocal, LuaError>)
    ensures
        final(reader).data@ == old(reader).data@,
        view_outcome(r, final(reader).pos) == debug_local_at(
            old(reader).data@,
            old(reader).pos as int,
        ),
        advanced(r, old(reader).pos, *final(reader)),
{
    let string_size = match reader.read_u32() { Ok(v) => v, Err(e) => return Err(e) };
    let local_name = match reader.read_text(string_size) { Ok(s) => s, Err(e) => return Err(e) };
    let start = match reader.read_i32() { Ok(v) => v, Err(e) => return Err(e) };
    let end = match reader.read_i32() { Ok(v) => v, Err(e) => return Err(e) };
    Ok(DebugLocal { string_size, local_name, start, end })
}

/// Reads one upvalue name of a debug block.
pub fn parse_debug_upvalue(reader: &mut ByteReader) -> (r: Result<DebugUpvalue, LuaError>)
    ensures
        final(reader).data@ == old(reader).data@,
        view_outcome(r, final(reader).pos) == debug_upvalue_at(
            old(reader).data@,
            old(reader).pos as int,
        ),
        advanced(r, old(reader).pos, *final(reader)),
{
    let string_size = match reader.read_u32() { Ok(v) => v, Err(e) => return Err(e) };
    let string = match reader.read_text(string_size) { Ok(s) => s, Err(e) => return Err(e) };
    Ok(DebugUpvalue { string_size, string })
}

/// Reads `n` big-endian words.
fn parse_u32s(reader: &mut ByteReader, n: u32) -> (r: Result<Vec<u32>, LuaError>)
    ensures
        final(reader).data@ == old(reader).data@,
        view_outcome(r, final(reader).pos) == items_at(
            old(reader).pos as int,
            n as nat,
            u32_item(old(reader).data@),
        ),
        advanced(r, old(reader).pos, *final(reader)),
{
    let ghost d = reader.data@;
    let ghost q = reader.pos as int;
    let mut items: Vec<u32> = Vec::new();
    let mut i: u32 = 0;
    while i < n
        invariant
            reader.data@ == d,
            d == old(reader).data@,
            q == old(reader).pos,
            i <= n,
            q <= reader.pos,
            q <= d.len() ==> reader.pos <= d.len(),
            items_at(q, i as nat, u32_item(d)) == ReadResult::<Seq<u32>>::Ok(
                (items@, reader.pos as int),
            ),
        decreases n - i,
    {
        let v = match reader.read_u32() {
            Ok(v) => v,
            Err(e) => {
                proof {
                    lemma_items_err(q, (i + 1) as nat, n as nat, u32_item(d));
                }
                return Err(e);
            },
        };
        items.push(v);
        i = i + 1;
    }
    Ok(items)
}

/// Reads `n` locals of a debug block.
fn parse_debug_locals(reader: &mut ByteReader, n: u32) -> (r: Result<Vec<DebugLocal>, LuaError>)
    ensures
        final(reader).data@ == old(reader).data@,
        match r {
            Ok(v) => items_at(old(reader).pos as int, n as nat, debug_local_item(old(reader).data@))
                == ReadResult::<Seq<DebugLocalView>>::Ok((seq_view(v@), final(reader).pos as int)),
            Err(e) => items_at(old(reader).pos as int, n as nat, debug_local_item(old(reader).data@))
                == ReadResult::<Seq<DebugLocalView>>::Err(e),
        },
        advanced(r, old(reader).pos, *final(reader)),
{
    let ghost d = reader.data@;
    let ghost q = reader.pos as int;
    let mut items: Vec<DebugLocal> = Vec::new();
    let mut i: u32 = 0;
    assert(seq_view(items@) =~= Seq::empty());
    while i < n
        invariant
            reader.data@ == d,
            d == old(reader).data@,
            q == old(reader).pos,
            i <= n,
            q <= reader.pos,
            q <= d.len() ==> reader.pos <= d.len(),
            items_at(q, i as nat, debug_local_item(d)) == ReadResult::<Seq<DebugLocalView>>::Ok(
                (seq_view(items@), reader.pos as int),
            ),
        decreases n - i,
    {
        let v = match parse_debug_local(reader) {
            Ok(v) => v,
            Err(e) => {
                proof {
                    lemma_items_err(q, (i + 1) as nat, n as nat, debug_local_item(d));
                }
                return Err(e);
            },
        };
        proof {
            lemma_seq_view_push(items@, v);
        }
        items.push(v);
        i = i + 1;
    }
    Ok(items)
}

/// Reads `n` upvalue names of a debug block.
fn parse_debug_upvalues(reader: &mut ByteReader, n: u32) -> (r: Result<
    Vec<DebugUpvalue>,
    LuaError,
>)
    ensures
        final(reader).data@ == old(reader).data@,
        match r {
            Ok(v) => items_at(old(reader).pos as int, n as nat, debug_upvalue_item(old(reader).data@))
                == ReadResult::<Seq<DebugUpvalueView>>::Ok((seq_view(v@), final(reader).pos as int)),
            Err(e) => items_at(old(reader).pos as int, n as nat, debug_upvalue_item(old(reader).data@))
                == ReadResult::<Seq<DebugUpvalueView>>::Err(e),
        },
        advanced(r, old(reader).pos, *final(reader)),
{
    let ghost d = reader.data@;
    let ghost q = reader.pos as int;
    let mut items: Vec<DebugUpvalue> = Vec::new();
    let mut i: u32 = 0;
    assert(seq_view(items@) =~= Seq::empty());
    while i < n
        invariant
            reader.data@ == d,
            d == old(reader).data@,
            q == old(reader).pos,
            i <= n,
            q <= reader.pos,
            q <= d.len() ==> reader.pos <= d.len(),
            items_at(q, i as nat, debug_upvalue_item(d)) == ReadResult::<Seq<DebugUpvalueView>>::Ok(
                (seq_view(items@), reader.pos as int),
            ),
        decreases n - i,
    {
        let v = match parse_debug_upvalue(reader) {
            Ok(v) => v,
            Err(e) => {
                proof {
                    lemma_items_err(q, (i + 1) as nat, n as nat, debug_upvalue_item(d));
                }
                return Err(e);
            },
        };
        proof {
            lemma_seq_view_push(items@, v);
        }
        items.push(v);
        i = i + 1;
    }
    Ok(items)
}

/// Reads a debug block: counts and line range, source path, function name,
/// then the lines, the locals and the upvalue names.
pub fn parse_debug_info(reader: &mut ByteReader) -> (r: Result<DebugInfo, LuaError>)
    ensures
        final(reader).data@ == old(reader).data@,
        view_outcome(r, final(reader).pos) == debug_info_at(
            old(reader).data@,
            old(reader).pos as int,
        ),
        advanced(r, old(reader).pos, *final(reader)),
{
    let line_count = match reader.read_u32() { Ok(v) => v, Err(e) => return Err(e) };
    let locals_count = match reader.read_u32() { Ok(v) => v, Err(e) => return Err(e) };
    let upvalue_count_2 = match reader.read_u32() { Ok(v) => v, Err(e) => return Err(e) };
    let line_begin = match reader.read_u32() { Ok(v) => v, Err(e) => return Err(e) };
    let line_end = match reader.read_u32() { Ok(v) => v, Err(e) => return Err(e) };
    let path_string_size = match reader.read_u32() { Ok(v) => v, Err(e) => return Err(e) };
    let path = match reader.read_text(path_string_size) { Ok(s) => s, Err(e) => return Err(e) };
    let function_string_size = match reader.read_u32() { Ok(v) => v, Err(e) => return Err(e) };
    let function_name = match reader.read_text(function_string_size) {
        Ok(s) => s,
        Err(e) => return Err(e),
    };
    let lines = match parse_u32s(reader, line_count) { Ok(v) => v, Err(e) => return Err(e) };
    let locals = match parse_debug_locals(reader, locals_count) {
        Ok(v) => v,
        Err(e) => return Err(e),
    };
    let upvalues = match parse_debug_upvalues(reader, upvalue_count_2) {
        Ok(v) => v,
        Err(e) => return Err(e),
    };
    Ok(DebugInfo {
        line_count,
        locals_count,
        upvalue_count_2,
        line_begin,
        line_end,
        path_string_size,
        path,
        function_string_size,
        function_name,
        lines,
        locals,
        upvalues,
    })
}

} // verus!
