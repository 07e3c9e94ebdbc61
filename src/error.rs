use vstd::prelude::*;

verus! {

/// Why a container could not be decoded.
#[derive(Debug, Clone, Copy, PartialEq, Eq, Structural)]
pub enum LuaError {
    /// Fewer bytes remain than a field or record requires.
    Truncated,
    /// The leading four bytes are not the container's magic tag.
    BadMagic,
    /// The header's version byte is not the Lua 5.1 marker.
    UnsupportedVersion(u8),
    /// The header's format byte is not the supported container revision.
    UnsupportedFormat(u8),
    /// The header's endianness byte names no known byte order.
    UnknownEndianness(u8),
    /// The header's number type byte names no known number type.
    UnknownNumberType(u8),
    /// An engine constant carries a tag whose payload is unknown.
    UnknownConstantTag(u8),
    /// An opcode has no entry in the addressing-mode table.
    UnknownOpcode(u8),
    /// Skipping to the next 4-byte boundary would run past the data.
    MisalignedSection,
}

} // verus!
