//! Decoder for a big-endian, Lua 5.1 derived compiled script container:
//! header, global type pool, the tree of function prototypes, and the
//! operand decoder for their instruction words.

pub mod error;
pub mod opcodes;
pub mod reader;
pub mod structs;
pub mod parse;
pub mod tree;
