use lua_container::error::LuaError;
use lua_container::opcodes::{OpArg, OpArgMode, OpArgModeA, OpArgModeBC, OpMode, OpModes};
use lua_container::parse::{
    parse_debug_info, parse_engine_constant, parse_engine_constants, parse_lua_header,
    parse_type_constants,
};
use lua_container::reader::ByteReader;
use lua_container::structs::{
    BungieConstantEnum, LuaEndian, LuaNumberType, LuaSection, LuaSectionType, VarArgFlags,
};
use lua_container::tree::{parse_function, parse_instructions, parse_lua_section, parse_script};

fn header(version: u8, format: u8) -> Vec<u8> {
    vec![0x1B, b'L', b'u', b'a', version, format, 0, 4, 4, 4, 4, 0, 0, 0]
}

fn push32(b: &mut Vec<u8>, v: u32) {
    b.extend_from_slice(&v.to_be_bytes());
}

fn push_text(b: &mut Vec<u8>, s: &[u8]) {
    push32(b, s.len() as u32);
    b.extend_from_slice(s);
}

/// Appends a prototype record without debug info or constants. Nested records
/// get `tag` as their leading word.
fn push_function(b: &mut Vec<u8>, root: bool, tag: u32, code: &[u32], children: u32) {
    if !root {
        push32(b, tag);
    }
    push32(b, 1); // upvalues
    push32(b, 2); // params
    b.push(2); // vararg
    if root {
        push32(b, 6); // slots
    }
    push32(b, code.len() as u32);
    while b.len() % 4 != 0 {
        b.push(0xEE);
    }
    for w in code {
        push32(b, *w);
    }
    push32(b, 0); // constants
    push32(b, 0); // no debug info
    push32(b, children);
}

fn table() -> Vec<OpModes> {
    let plain = OpModes {
        mode: OpMode::iABC,
        arg_mode_a: OpArgModeA::Reg,
        arg_mode_b: OpArgModeBC::Unused,
        arg_mode_c: OpArgModeBC::Unused,
    };
    let mut t = vec![plain; 128];
    t[1] = OpModes {
        mode: OpMode::iAsBx,
        arg_mode_a: OpArgModeA::Unused,
        arg_mode_b: OpArgModeBC::Offset,
        arg_mode_c: OpArgModeBC::Unused,
    };
    t
}

#[test]
fn reads_big_endian_integers() {
    let mut r = ByteReader::new(vec![
        0x12, 0x34, 0x56, 0x78, 0xFF, 0xFF, 0xFF, 0xFE, 1, 2, 3, 4, 5, 6, 7, 8, 0xFF, 0xFF, 0xFF,
        0xFF, 0xFF, 0xFF, 0xFF, 0xFD, 9,
    ]);
    assert_eq!(r.read_u32(), Ok(0x1234_5678));
    assert_eq!(r.read_i32(), Ok(-2));
    assert_eq!(r.read_u64(), Ok(0x0102_0304_0506_0708));
    assert_eq!(r.read_i64(), Ok(-3));
    assert_eq!(r.position(), 24);
    assert_eq!(r.read_u32(), Err(LuaError::Truncated));
    assert_eq!(r.read_u8(), Ok(9));
    assert_eq!(r.read_u8(), Err(LuaError::Truncated));
}

#[test]
fn text_is_lossy_and_nul_trimmed() {
    let mut r = ByteReader::new(vec![b'a', b'b', 0, 0, 0xFF, b'c', 0, b'z']);
    assert_eq!(r.read_text(4), Ok(String::from("ab")));
    assert_eq!(r.read_text(3), Ok(String::from("\u{FFFD}c")));
    assert_eq!(r.read_text(2), Err(LuaError::Truncated));
    assert_eq!(r.read_text(0), Ok(String::new()));
    assert_eq!(r.read_text(1), Ok(String::from("z")));
}

#[test]
fn alignment_skips_to_a_multiple_of_four() {
    for start in 0usize..8 {
        let mut r = ByteReader::new(vec![0; 8]);
        r.pos = start;
        assert_eq!(r.align_to_4(), Ok(()));
        assert_eq!(r.position(), (start + 3) / 4 * 4);
    }
    let mut r = ByteReader::new(vec![0; 6]);
    r.pos = 5;
    assert_eq!(r.align_to_4(), Err(LuaError::MisalignedSection));
}

#[test]
fn header_is_read() {
    let mut r = ByteReader::new(header(0x51, 0x0E));
    let h = parse_lua_header(&mut r).unwrap();
    assert_eq!(h.version, 0x51);
    assert_eq!(h.format, 0x0E);
    assert_eq!(h.endianness, LuaEndian::Big);
    assert_eq!(h.int_size, 4);
    assert_eq!(h.number_type, LuaNumberType::Float);
    assert_eq!(r.position(), 14);
}

#[test]
fn header_gate_rejects_version_and_format() {
    let mut r = ByteReader::new(header(0x50, 0x0E));
    assert_eq!(parse_lua_header(&mut r), Err(LuaError::UnsupportedVersion(0x50)));
    let mut r = ByteReader::new(header(0x51, 0x0D));
    assert_eq!(parse_lua_header(&mut r), Err(LuaError::UnsupportedFormat(0x0D)));
    // only the bytes up to the version are needed
    let mut r = ByteReader::new(vec![0x1B, b'L', b'u', b'a', 0x50]);
    assert_eq!(parse_lua_header(&mut r), Err(LuaError::UnsupportedVersion(0x50)));
}

#[test]
fn header_other_errors() {
    let mut bad = header(0x51, 0x0E);
    bad[1] = b'l';
    assert_eq!(parse_lua_header(&mut ByteReader::new(bad)), Err(LuaError::BadMagic));
    let short = header(0x51, 0x0E)[..10].to_vec();
    assert_eq!(parse_lua_header(&mut ByteReader::new(short)), Err(LuaError::Truncated));
    let mut endian = header(0x51, 0x0E);
    endian[6] = 7;
    assert_eq!(parse_lua_header(&mut ByteReader::new(endian)), Err(LuaError::UnknownEndianness(7)));
    let mut num = header(0x51, 0x0E);
    num[11] = 9;
    assert_eq!(parse_lua_header(&mut ByteReader::new(num)), Err(LuaError::UnknownNumberType(9)));
    assert_eq!(parse_lua_header(&mut ByteReader::new(vec![0x1B])), Err(LuaError::Truncated));
}

#[test]
fn type_pool_is_read_in_order() {
    let mut b = Vec::new();
    push32(&mut b, 2);
    push32(&mut b, 7);
    push_text(&mut b, b"vector\0\0");
    push32(&mut b, 9);
    push_text(&mut b, b"entity");
    let mut r = ByteReader::new(b);
    let t = parse_type_constants(&mut r).unwrap();
    assert_eq!(t.constants_amount, 2);
    assert_eq!(t.constants.len(), 2);
    assert_eq!(t.constants[0].constant_type, 7);
    assert_eq!(t.constants[0].string_size, 8);
    assert_eq!(t.constants[0].const_string, "vector");
    assert_eq!(t.constants[1].const_string, "entity");

    let mut short = Vec::new();
    push32(&mut short, 3);
    push32(&mut short, 1);
    push_text(&mut short, b"x");
    assert_eq!(parse_type_constants(&mut ByteReader::new(short)).unwrap_err(), LuaError::Truncated);

    let mut empty = Vec::new();
    push32(&mut empty, 0);
    assert_eq!(parse_type_constants(&mut ByteReader::new(empty)).unwrap().constants.len(), 0);
}

#[test]
fn engine_constants_of_every_tag() {
    let mut b = Vec::new();
    push32(&mut b, 6);
    b.push(0);
    b.push(1);
    b.push(1);
    b.push(2);
    b.extend_from_slice(&(-5i64).to_be_bytes());
    b.push(3);
    b.extend_from_slice(&1.5f32.to_bits().to_be_bytes());
    b.push(4);
    push_text(&mut b, b"hi\0");
    b.push(11);
    b.extend_from_slice(&0x0102_0304_0506_0708u64.to_be_bytes());
    let mut r = ByteReader::new(b);
    let c = parse_engine_constants(&mut r).unwrap();
    assert_eq!(c.constants_amount, 6);
    let kinds: Vec<u8> = c.constants.iter().map(|k| k.constant_type).collect();
    assert_eq!(kinds, vec![0, 1, 2, 3, 4, 11]);
    assert!(matches!(c.constants[0].constant, BungieConstantEnum::Nil));
    assert!(matches!(c.constants[1].constant, BungieConstantEnum::Bool(1)));
    assert!(matches!(c.constants[2].constant, BungieConstantEnum::LightUserData(-5)));
    match &c.constants[3].constant {
        BungieConstantEnum::Number(bits) => assert_eq!(f32::from_bits(*bits), 1.5),
        other => panic!("{:?}", other),
    }
    match &c.constants[4].constant {
        BungieConstantEnum::String(s) => {
            assert_eq!(s.string_size, 3);
            assert_eq!(s.const_string, "hi");
        },
        other => panic!("{:?}", other),
    }
    assert!(matches!(c.constants[5].constant, BungieConstantEnum::U64(0x0102_0304_0506_0708)));
    assert_eq!(r.position(), r.data.len());
}

#[test]
fn unknown_constant_tag_reads_no_payload() {
    let mut r = ByteReader::new(vec![5]);
    assert_eq!(parse_engine_constant(&mut r).unwrap_err(), LuaError::UnknownConstantTag(5));
    let mut r = ByteReader::new(vec![5, 0, 0, 0, 0, 0, 0, 0, 0]);
    assert_eq!(parse_engine_constant(&mut r).unwrap_err(), LuaError::UnknownConstantTag(5));
    let mut b = Vec::new();
    push32(&mut b, 2);
    b.push(0);
    b.push(12);
    assert_eq!(parse_engine_constants(&mut ByteReader::new(b)).unwrap_err(), LuaError::UnknownConstantTag(12));
}

#[test]
fn debug_info_is_read() {
    let mut b = Vec::new();
    push32(&mut b, 2); // lines
    push32(&mut b, 1); // locals
    push32(&mut b, 1); // upvalues
    push32(&mut b, 10);
    push32(&mut b, 20);
    push_text(&mut b, b"a/b.lua\0");
    push_text(&mut b, b"main");
    push32(&mut b, 11);
    push32(&mut b, 12);
    push_text(&mut b, b"x");
    b.extend_from_slice(&(-1i32).to_be_bytes());
    push32(&mut b, 4);
    push_text(&mut b, b"self");
    let mut r = ByteReader::new(b);
    let d = parse_debug_info(&mut r).unwrap();
    assert_eq!((d.line_count, d.locals_count, d.upvalue_count_2), (2, 1, 1));
    assert_eq!((d.line_begin, d.line_end), (10, 20));
    assert_eq!(d.path, "a/b.lua");
    assert_eq!(d.path_string_size, 8);
    assert_eq!(d.function_name, "main");
    assert_eq!(d.lines, vec![11, 12]);
    assert_eq!(d.locals[0].local_name, "x");
    assert_eq!((d.locals[0].start, d.locals[0].end), (-1, 4));
    assert_eq!(d.upvalues[0].string, "self");
    assert_eq!(r.position(), r.data.len());
}

#[test]
fn instructions_are_aligned_in_every_phase() {
    // the root prologue is 17 bytes; starting at 0..4 gives 3, 2, 1 and 0 bytes of padding
    for start in 0usize..4 {
        let mut b = vec![0xAA; start];
        push_function(&mut b, true, 0, &[0x0102_0304, 0x0506_0708], 0);
        let mut r = ByteReader::new(b);
        r.pos = start;
        let f = parse_function(&mut r, true).unwrap();
        assert_eq!(f.address, start as u64);
        assert_eq!(f.instructions.len(), 2);
        assert_eq!(f.instructions[0].raw, 0x0102_0304);
        assert_eq!(f.instructions[1].raw, 0x0506_0708);
        assert_eq!(r.position(), r.data.len());
    }
}

#[test]
fn children_are_read_in_stored_order() {
    let mut b = Vec::new();
    push_function(&mut b, true, 0, &[1], 3);
    push_function(&mut b, false, 100, &[2], 0);
    push_function(&mut b, false, 101, &[3, 4], 1);
    push_function(&mut b, false, 200, &[], 0);
    push_function(&mut b, false, 102, &[5], 0);
    let mut r = ByteReader::new(b);
    let f = parse_function(&mut r, true).unwrap();
    assert_eq!(f.function_count, 3);
    assert_eq!(f.slot_count, Some(6));
    assert_eq!(f.leading_tag, None);
    assert_eq!(f.upvalue_count, 1);
    assert_eq!(f.param_count, 2);
    assert_eq!(VarArgFlags::from_bits(f.vararg), Some(VarArgFlags::IsVar));
    let tags: Vec<Option<u32>> = f.child_functions.iter().map(|c| c.leading_tag).collect();
    assert_eq!(tags, vec![Some(100), Some(101), Some(102)]);
    assert!(f.child_functions.iter().all(|c| c.slot_count.is_none()));
    assert_eq!(f.child_functions[1].child_functions.len(), 1);
    assert_eq!(f.child_functions[1].child_functions[0].leading_tag, Some(200));
    assert!(f.child_functions[0].child_functions.is_empty());
    assert!(f.child_functions[0].address < f.child_functions[1].address);
    assert_eq!(r.position(), r.data.len());
}

#[test]
fn no_children_gives_an_empty_list() {
    let mut b = Vec::new();
    push_function(&mut b, true, 0, &[], 0);
    let f = parse_function(&mut ByteReader::new(b), true).unwrap();
    assert_eq!(f.function_count, 0);
    assert!(f.child_functions.is_empty());
    assert!(!f.has_debug_info);
}

#[test]
fn missing_child_is_truncated() {
    let mut b = Vec::new();
    push_function(&mut b, true, 0, &[], 2);
    push_function(&mut b, false, 1, &[], 0);
    assert_eq!(parse_function(&mut ByteReader::new(b), true).unwrap_err(), LuaError::Truncated);
}

#[test]
fn padding_past_the_end_is_misaligned() {
    let mut b = Vec::new();
    push32(&mut b, 1);
    push32(&mut b, 2);
    b.push(0);
    push32(&mut b, 6);
    push32(&mut b, 0);
    // 17 bytes: the skip to 20 runs past the end
    assert_eq!(parse_function(&mut ByteReader::new(b), true).unwrap_err(), LuaError::MisalignedSection);
}

#[test]
fn debug_block_inside_a_prototype() {
    let mut b = Vec::new();
    push32(&mut b, 0);
    push32(&mut b, 0);
    b.push(0);
    push32(&mut b, 0);
    push32(&mut b, 0);
    while b.len() % 4 != 0 {
        b.push(0);
    }
    push32(&mut b, 0); // constants
    push32(&mut b, 1); // debug info present
    for v in [0u32, 0, 0, 3, 4] {
        push32(&mut b, v);
    }
    push_text(&mut b, b"p");
    push_text(&mut b, b"f");
    push32(&mut b, 0); // children
    let f = parse_function(&mut ByteReader::new(b), true).unwrap();
    assert!(f.has_debug_info);
    assert_eq!(f.debug_info.line_begin, 3);
    assert_eq!(f.debug_info.function_name, "f");
}

#[test]
fn sections_are_read_by_kind() {
    let mut b = Vec::new();
    push32(&mut b, 0);
    match parse_lua_section(&mut ByteReader::new(b), LuaSectionType::TypeConstants) {
        Ok(LuaSection::TypeConstants(t)) => assert_eq!(t.constants_amount, 0),
        other => panic!("{:?}", other),
    }
    let mut b = Vec::new();
    push_function(&mut b, true, 0, &[9], 0);
    match parse_lua_section(&mut ByteReader::new(b), LuaSectionType::FunctionBlock) {
        Ok(LuaSection::FunctionBlock(f)) => assert_eq!(f.instructions[0].raw, 9),
        other => panic!("{:?}", other),
    }
}

#[test]
fn minimal_container_end_to_end() {
    let mut b = header(0x51, 0x0E);
    push32(&mut b, 0); // empty type pool
    let word: u32 = (0 << 25) | 3; // opcode 0, A = 3
    push_function(&mut b, true, 0, &[word], 0);
    let s = parse_script(b, &table()).unwrap();
    assert_eq!(s.header.version, 0x51);
    assert!(s.type_constants.constants.is_empty());
    assert!(s.root.child_functions.is_empty());
    assert_eq!(s.root.instructions.len(), 1);
    assert!(s.decoded.children.is_empty());
    assert_eq!(s.decoded.instructions.len(), 1);
    let ins = &s.decoded.instructions[0];
    assert_eq!(ins.opcode, 0);
    assert_eq!(ins.args, vec![OpArg { mode: OpArgMode::Reg, value: 3 }]);
}

#[test]
fn decode_pass_covers_the_tree() {
    let mut b = Vec::new();
    push_function(&mut b, true, 0, &[(1 << 25) | (0x10000 << 8)], 1);
    push_function(&mut b, false, 7, &[(1 << 25) | 0], 0);
    let f = parse_function(&mut ByteReader::new(b), true).unwrap();
    let d = parse_instructions(&f, &table()).unwrap();
    assert_eq!(d.instructions[0].opcode, 1);
    assert_eq!(d.instructions[0].modes.mode, OpMode::iAsBx);
    assert_eq!(d.instructions[0].args[1].signed_value(), 1);
    assert_eq!(d.children.len(), 1);
    assert_eq!(d.children[0].instructions[0].args[1].signed_value(), -65535);
}

#[test]
fn opcode_without_table_entry_fails() {
    let mut b = Vec::new();
    push_function(&mut b, true, 0, &[0], 1);
    push_function(&mut b, false, 7, &[40 << 25], 0);
    let f = parse_function(&mut ByteReader::new(b), true).unwrap();
    let small = table()[..10].to_vec();
    assert_eq!(parse_instructions(&f, &small).unwrap_err(), LuaError::UnknownOpcode(40));
    assert!(parse_instructions(&f, &table()).is_ok());
}

#[test]
fn script_errors_propagate() {
    let mut b = header(0x50, 0x0E);
    push32(&mut b, 0);
    assert_eq!(parse_script(b, &table()).unwrap_err(), LuaError::UnsupportedVersion(0x50));
    let mut b = header(0x51, 0x0E);
    push32(&mut b, 1);
    assert_eq!(parse_script(b, &table()).unwrap_err(), LuaError::Truncated);
}

#[test]
fn vararg_flag_values() {
    assert_eq!(VarArgFlags::from_bits(1), Some(VarArgFlags::Has));
    assert_eq!(VarArgFlags::from_bits(2), Some(VarArgFlags::IsVar));
    assert_eq!(VarArgFlags::from_bits(3), Some(VarArgFlags::Unk3));
    assert_eq!(VarArgFlags::from_bits(4), Some(VarArgFlags::Needs));
    assert_eq!(VarArgFlags::from_bits(0), None);
    assert_eq!(VarArgFlags::from_bits(5), None);
}
