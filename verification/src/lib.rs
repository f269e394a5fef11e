//! A static disassembler core for the SM83 (Game Boy LR35902) instruction set.
//!
//! The crate has two halves: a table-driven opcode decoder that classifies a
//! byte (plus up to two trailing operand bytes) into a symbolic instruction,
//! and a control-flow-directed traversal that discovers every instruction
//! address reachable from an entry point by following jump edges.

pub mod decode;
pub mod isa;
pub mod pattern;
pub mod reader;
pub mod table;
pub mod traverse;

pub use decode::decode_instruction;
pub use isa::Condition;
pub use isa::DecodeError;
pub use isa::Instruction;
pub use isa::MemName;
pub use isa::Mnemonic;
pub use isa::Operand;
pub use isa::Reg16;
pub use isa::Reg16Mem;
pub use isa::Reg8;
pub use pattern::Pattern;
pub use reader::CartridgeReader;
pub use traverse::disassemble;
pub use traverse::ControlFlowEffect;
pub use traverse::VisitedMap;
pub use traverse::ENTRY_ADDRESS;
