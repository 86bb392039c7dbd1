//! A cooperative bytecode virtual machine for CLEO-style scripts: two-byte
//! opcodes, tagged inline operands and label-relative jumps, with typed local
//! variable cells, an untyped global table, explicit call frames and a
//! round-robin scheduler.

pub mod error;
pub mod bytes;
pub mod variable;
pub mod parser;
pub mod clock;
pub mod globals;
pub mod script;
pub mod opcodes;
pub mod vm;
pub mod laws;
pub mod interpreter;
