//! Execution core of a 32-bit x86 interpreter: an explicit register file, a
//! flat little-endian guest memory, stack primitives, and a
//! decode-dispatch-execute step that intercepts indirect calls through the
//! guest's import table so the host can emulate operating-system APIs.

pub mod arith;
pub mod cpu;
pub mod decode;
pub mod instr;
pub mod machine;
pub mod registers;
