//! Execution core of a small bytecode-driven language runtime: a stack-based
//! virtual machine that loads a compiled instruction chunk and runs it to
//! completion, keeping variable bindings and anonymous values on one
//! undifferentiated stack delimited by scope-frame markers.

pub mod chunk;
pub mod data;
pub mod decode;
pub mod fault;
pub mod laws;
pub mod local;
pub mod semantics;
pub mod stack;
pub mod token;
pub mod vm;

pub use chunk::Chunk;
pub use chunk::Opcode;
pub use data::Data;
pub use data::Tagged;
pub use fault::Fault;
pub use fault::RunResult;
pub use local::Local;
pub use stack::Item;
pub use stack::Stack;
pub use token::Token;
pub use vm::VM;
