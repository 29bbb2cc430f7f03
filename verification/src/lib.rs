//! Assembler for a virtual machine whose programs are trees of hashed code blocks.

pub mod assembler;
pub mod blocks;
pub mod builder;
pub mod decimal;
pub mod errors;
pub mod files;
pub mod hasher;
pub mod inlining;
pub mod inputs;
pub mod instruction;
pub mod laws;
pub mod mnemonic;
pub mod operation;
pub mod parser;
pub mod procedures;
pub mod shape;
pub mod text;
pub mod tokens;

pub use assembler::{Assembler, Program};
pub use blocks::{CodeBlock, Join, Loop, Span, Split};
pub use errors::AssemblyError;
pub use files::{InputFile, OutputFile, ProgramFile, ProgramHash, ProofFile};
pub use hasher::Digest;
pub use inputs::{InputError, ProgramInputs, ProgramOutputs};
pub use operation::Operation;
pub use parser::{parse_module, ModuleAst, ProcedureAst};
pub use procedures::{
    EmptyProvider, LibraryModule, ModuleLibrary, ModuleProvider, NamedModuleAst, ProcedureId,
};
