//! The assembler: from source text to a program.

use crate::blocks::{tree_digest, tree_text, well_formed, CodeBlock, Tree};
use crate::builder::{assemble, assemble_items, build_items, build_spec, lookup_of, MAX_IMPORT_DEPTH};
use crate::errors::{agrees, AssemblyError, ErrorSpec};
use crate::hasher::Digest;
use crate::parser::{parse_module, parse_tokens};
use crate::procedures::{EmptyProvider, ModuleProvider, NamedModuleSpec};
use crate::text::{push_lit, string_of};
use crate::tokens::tokens_of;
use vstd::prelude::*;

verus! {

/// A program: a block tree that is executed from its root.
#[derive(Debug)]
pub struct Program {
    root: CodeBlock,
}

impl View for Program {
    type V = Tree;

    closed spec fn view(&self) -> Tree {
        self.root@
    }
}

/// The text of a program whose root has the given shape.
pub open spec fn program_text(root: Tree) -> Seq<char> {
    "begin "@ + tree_text(root) + " end"@
}

impl Program {
    /// Returns the program with the given root.
    pub fn new(root: CodeBlock) -> (out: Program)
        ensures
            out@ == root@,
    {
        Program { root }
    }

    /// Returns the root of the program.
    pub fn root(&self) -> (out: &CodeBlock)
        ensures
            out@ == self@,
    {
        &self.root
    }

    /// Returns the digest of the program, which is the digest of its root.
    pub fn hash(&self) -> (out: Digest)
        ensures
            out@ == tree_digest(self@),
            well_formed(self@),
    {
        self.root.hash()
    }

    /// Returns the text of the program.
    pub fn to_string(&self) -> (out: String)
        ensures
            out@ == program_text(self@),
    {
        let mut buf: Vec<char> = Vec::new();
        push_lit(&mut buf, "begin ");
        self.root.write_text(&mut buf);
        push_lit(&mut buf, " end");
        assert(buf@ =~= program_text(self@));
        string_of(&buf)
    }
}

/// The program that a sequence of tokens stands for, or the first error in it.
///
/// The tokens are parsed as a module, which must end with a program body. The items of
/// the body, with calls replaced by the items of the called procedures, are grouped into
/// spans and joined from left to right. `lookup` says which module the provider has for
/// the identifier of an imported procedure.
pub open spec fn compile_tokens(
    lookup: spec_fn(Seq<u8>) -> Option<NamedModuleSpec>,
    tokens: Seq<Seq<char>>,
) -> Result<Tree, ErrorSpec> {
    match parse_tokens(tokens) {
        Err(e) => Err(e),
        Ok(module) => match module.body {
            None => Err(ErrorSpec::ExpectedBegin { found: Seq::empty() }),
            Some(body) => match build_spec(
                lookup,
                module,
                module.local_procs.len(),
                body,
                0,
                MAX_IMPORT_DEPTH as nat,
            ) {
                Err(e) => Err(e),
                Ok(items) => Ok(assemble(items)),
            },
        },
    }
}

/// The program that a source text stands for, or the first error in it.
pub open spec fn compile_spec(
    lookup: spec_fn(Seq<u8>) -> Option<NamedModuleSpec>,
    source: Seq<char>,
) -> Result<Tree, ErrorSpec> {
    compile_tokens(lookup, tokens_of(source))
}

/// The assembler. It resolves imported procedures with its module provider.
#[derive(Debug)]
pub struct Assembler<P: ModuleProvider> {
    provider: P,
}

impl Assembler<EmptyProvider> {
    /// Returns an assembler whose provider has no module.
    pub fn new() -> (out: Self)
        ensures
            out.provider() == EmptyProvider,
    {
        Assembler { provider: EmptyProvider }
    }
}

impl Default for Assembler<EmptyProvider> {
    fn default() -> (out: Self)
        ensures
            out.provider() == EmptyProvider,
    {
        Assembler { provider: EmptyProvider }
    }
}

impl<P: ModuleProvider> Assembler<P> {
    /// The module provider of the assembler.
    pub closed spec fn provider(&self) -> P {
        self.provider
    }

    /// Returns an assembler that resolves imported procedures with `provider`.
    pub fn with_module_provider<Q: ModuleProvider>(self, provider: Q) -> (out: Assembler<Q>)
        ensures
            out.provider() == provider,
    {
        Assembler { provider }
    }

    /// Compiles a program from its source text.
    ///
    /// The result is the program that the text stands for, with every span holding at
    /// least one operation; it is an error exactly if the text is faulty, and the error is
    /// the one that `compile_spec` names.
    pub fn compile(&self, source: &str) -> (out: Result<Program, AssemblyError>)
        ensures
            agrees(out, compile_spec(lookup_of(&self.provider()), source@)),
            out is Ok ==> well_formed(out->Ok_0@),
    {
        let module = match parse_module(source) {
            Err(e) => {
                return Err(e);
            },
            Ok(module) => module,
        };
        let items = match &module.body {
            None => {
                return Err(AssemblyError::ExpectedBegin { found: String::new() });
            },
            Some(body) => match build_items(
                &self.provider,
                &module,
                module.local_procs.len(),
                body,
                0,
                MAX_IMPORT_DEPTH,
            ) {
                Err(e) => {
                    return Err(e);
                },
                Ok(items) => items,
            },
        };
        let root = assemble_items(items);
        let program = Program::new(root);
        let _ = program.hash();
        Ok(program)
    }
}

} // verus!
