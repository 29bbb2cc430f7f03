//! Parsing of modules.
//!
//! A module is a sequence of imports and procedures, followed, in a program module, by the
//! program body. Parsing finds where each body ends and checks that its tokens decode and
//! nest properly; the bodies themselves are kept as tokens, to be built when they are used.

use crate::errors::{agrees, AssemblyError, BlockKind, ElseFault, ErrorSpec};
use crate::instruction::{decode, decode_spec, split, split_chars, Instruction, InstructionSpec, lists};
use crate::text::{eq_lit, lemma_strs_push, strs, to_chars};
use crate::tokens::{tokens_of, TokenStream};
use vstd::prelude::*;

verus! {

/// A procedure of a module.
#[derive(Clone, Debug)]
pub struct ProcedureAst {
    /// The label that the procedure is called by.
    pub name: String,
    /// The number of local memory words of the procedure.
    pub num_locals: u32,
    /// Whether the procedure is exported from its module.
    pub is_export: bool,
    /// The tokens of the body, without the header and the closing `end`.
    pub body: Vec<String>,
}

/// An import of a module.
#[derive(Clone, Debug)]
pub struct Import {
    /// The name by which the module is referred to: the last segment of its path.
    pub alias: String,
    /// The path of the module.
    pub path: String,
}

/// A parsed module.
#[derive(Clone, Debug)]
pub struct ModuleAst {
    /// The imports, in source order.
    pub imports: Vec<Import>,
    /// The procedures, in source order.
    pub local_procs: Vec<ProcedureAst>,
    /// The tokens of the program body, if the module is a program.
    pub body: Option<Vec<String>>,
}

/// The mathematical content of a [`ProcedureAst`].
pub struct ProcedureSpec {
    pub name: Seq<char>,
    pub num_locals: u32,
    pub is_export: bool,
    pub body: Seq<Seq<char>>,
}

/// The mathematical content of an [`Import`].
pub struct ImportSpec {
    pub alias: Seq<char>,
    pub path: Seq<char>,
}

/// The mathematical content of a [`ModuleAst`].
pub struct ModuleSpec {
    pub imports: Seq<ImportSpec>,
    pub local_procs: Seq<ProcedureSpec>,
    pub body: Option<Seq<Seq<char>>>,
}

impl View for ProcedureAst {
    type V = ProcedureSpec;

    open spec fn view(&self) -> ProcedureSpec {
        ProcedureSpec {
            name: self.name@,
            num_locals: self.num_locals,
            is_export: self.is_export,
            body: strs(self.body@),
        }
    }
}

impl View for Import {
    type V = ImportSpec;

    open spec fn view(&self) -> ImportSpec {
        ImportSpec { alias: self.alias@, path: self.path@ }
    }
}

impl View for ModuleAst {
    type V = ModuleSpec;

    open spec fn view(&self) -> ModuleSpec {
        ModuleSpec {
            imports: Seq::new(self.imports@.len(), |i: int| self.imports@[i]@),
            local_procs: Seq::new(self.local_procs@.len(), |i: int| self.local_procs@[i]@),
            body: match self.body {
                Some(tokens) => Some(strs(tokens@)),
                None => None,
            },
        }
    }
}

/// The constructs that can be open inside a body.
#[derive(Clone, Copy, Debug, PartialEq, Eq, Structural)]
pub enum Opener {
    /// The first branch of an `if.true`.
    If,
    /// The second branch of an `if.true`, after its `else`.
    Else,
    /// The body of a `while.true`.
    While,
    /// The body of a `repeat`.
    Repeat,
}

/// The error for a source that ends while the constructs of `open` are open, inside a body
/// of kind `root`: it names the innermost of them.
pub open spec fn unclosed(open: Seq<Opener>, root: BlockKind) -> ErrorSpec {
    if open.len() == 0 {
        ErrorSpec::MissingEndFor(root)
    } else {
        match open.last() {
            Opener::If => ErrorSpec::MissingEndFor(BlockKind::If),
            Opener::Else => ErrorSpec::DanglingElse(ElseFault::NoEnd),
            Opener::While => ErrorSpec::MissingEndFor(BlockKind::While),
            Opener::Repeat => ErrorSpec::MissingEndFor(BlockKind::Repeat),
        }
    }
}

/// The position of the `end` that closes a body, or the first error in the body.
///
/// The body is read from position `pos` of `tokens`; `open` lists the constructs that are
/// open there, outermost first, and `fresh` tells whether the token before `pos` opened a
/// loop or a repetition. `root` is the kind of the body and `num_locals` the number of
/// locals of the procedure that it belongs to.
pub open spec fn scan_spec(
    tokens: Seq<Seq<char>>,
    pos: int,
    open: Seq<Opener>,
    fresh: bool,
    root: BlockKind,
    num_locals: u32,
) -> Result<int, ErrorSpec>
    decreases tokens.len() - pos,
{
    if pos < 0 || pos >= tokens.len() {
        Err(unclosed(open, root))
    } else {
        match decode_spec(tokens[pos], num_locals) {
            Err(e) => Err(e),
            Ok(instruction) => match instruction {
                InstructionSpec::Begin
                | InstructionSpec::Proc { .. }
                | InstructionSpec::Use { .. } => Err(
                    ErrorSpec::UnexpectedBodyTermination { token: tokens[pos] },
                ),
                InstructionSpec::End => if open.len() == 0 {
                    Ok(pos)
                } else if fresh {
                    Err(ErrorSpec::EmptyCodeBlock)
                } else {
                    scan_spec(tokens, pos + 1, open.drop_last(), false, root, num_locals)
                },
                InstructionSpec::IfTrue => scan_spec(
                    tokens,
                    pos + 1,
                    open.push(Opener::If),
                    false,
                    root,
                    num_locals,
                ),
                InstructionSpec::WhileTrue => scan_spec(
                    tokens,
                    pos + 1,
                    open.push(Opener::While),
                    true,
                    root,
                    num_locals,
                ),
                InstructionSpec::Repeat(_) => scan_spec(
                    tokens,
                    pos + 1,
                    open.push(Opener::Repeat),
                    true,
                    root,
                    num_locals,
                ),
                InstructionSpec::Else => if open.len() > 0 && open.last() == Opener::If {
                    scan_spec(
                        tokens,
                        pos + 1,
                        open.drop_last().push(Opener::Else),
                        false,
                        root,
                        num_locals,
                    )
                } else {
                    Err(ErrorSpec::DanglingElse(ElseFault::NoIf))
                },
                InstructionSpec::Ops(_) | InstructionSpec::Exec { .. } => scan_spec(
                    tokens,
                    pos + 1,
                    open,
                    false,
                    root,
                    num_locals,
                ),
            },
        }
    }
}

/// Whether a token starts a declaration: its mnemonic is `use`, `proc`, `export` or
/// `begin`.
pub open spec fn declares(token: Seq<char>) -> bool {
    let root = split(token, '.')[0];
    root == "use"@ || root == "proc"@ || root == "export"@ || root == "begin"@
}

/// The error for a token that stands between declarations and starts none: an `end` and
/// an `else` have nothing to close or to follow, and any other token stands where `begin`
/// is expected.
pub open spec fn misplaced(token: Seq<char>) -> ErrorSpec {
    match decode_spec(token, 0) {
        Ok(InstructionSpec::End) => ErrorSpec::DanglingEnd,
        Ok(InstructionSpec::Else) => ErrorSpec::DanglingElse(ElseFault::NoIf),
        _ => ErrorSpec::ExpectedBegin { found: token },
    }
}

/// Whether a procedure with the given label is among `procs`.
pub open spec fn has_proc(procs: Seq<ProcedureSpec>, label: Seq<char>) -> bool {
    exists|i: int| 0 <= i < procs.len() && (#[trigger] procs[i]).name == label
}

/// Whether an exported procedure is among `procs`.
pub open spec fn has_export(procs: Seq<ProcedureSpec>) -> bool {
    exists|i: int| 0 <= i < procs.len() && (#[trigger] procs[i]).is_export
}

/// The module that the declarations from position `pos` of `tokens` add to `module`, or
/// the first error in them.
pub open spec fn parse_from(tokens: Seq<Seq<char>>, pos: int, module: ModuleSpec) -> Result<
    ModuleSpec,
    ErrorSpec,
>
    decreases tokens.len() - pos,
{
    if pos < 0 || pos >= tokens.len() {
        Ok(module)
    } else if !declares(tokens[pos]) {
        Err(misplaced(tokens[pos]))
    } else {
        match decode_spec(tokens[pos], 0) {
            Err(e) => Err(e),
            Ok(InstructionSpec::Use { alias, path }) => parse_from(
                tokens,
                pos + 1,
                ModuleSpec { imports: module.imports.push(ImportSpec { alias, path }), ..module },
            ),
            Ok(InstructionSpec::Proc { label, num_locals, is_export }) => if has_proc(
                module.local_procs,
                label,
            ) {
                Err(ErrorSpec::DuplicateProcedureLabel { label })
            } else {
                match scan_spec(tokens, pos + 1, Seq::empty(), false, BlockKind::Proc, num_locals) {
                    Err(e) => Err(e),
                    Ok(end) => if !(pos + 1 < end < tokens.len()) {
                        Err(ErrorSpec::EmptyCodeBlock)
                    } else {
                        parse_from(
                            tokens,
                            end + 1,
                            ModuleSpec {
                                local_procs: module.local_procs.push(
                                    ProcedureSpec {
                                        name: label,
                                        num_locals,
                                        is_export,
                                        body: tokens.subrange(pos + 1, end),
                                    },
                                ),
                                ..module
                            },
                        )
                    },
                }
            },
            Ok(InstructionSpec::Begin) => if has_export(module.local_procs) {
                Err(ErrorSpec::ExportedInProgram)
            } else {
                match scan_spec(tokens, pos + 1, Seq::empty(), false, BlockKind::Begin, 0) {
                    Err(e) => Err(e),
                    Ok(end) => if !(pos + 1 < end < tokens.len()) {
                        Err(ErrorSpec::EmptyCodeBlock)
                    } else if end + 1 < tokens.len() {
                        Err(ErrorSpec::DanglingAfterProgram)
                    } else {
                        Ok(ModuleSpec { body: Some(tokens.subrange(pos + 1, end)), ..module })
                    },
                }
            },
            Ok(_) => Err(ErrorSpec::ExpectedBegin { found: tokens[pos] }),
        }
    }
}

/// The module without imports, procedures and body.
pub open spec fn empty_module() -> ModuleSpec {
    ModuleSpec { imports: Seq::empty(), local_procs: Seq::empty(), body: None }
}

/// The module that a sequence of tokens declares, or the first error in it.
pub open spec fn parse_tokens(tokens: Seq<Seq<char>>) -> Result<ModuleSpec, ErrorSpec> {
    if tokens.len() == 0 {
        Err(ErrorSpec::EmptySource)
    } else {
        parse_from(tokens, 0, empty_module())
    }
}

/// The module that a source text declares, or the first error in it.
pub open spec fn parse_module_spec(source: Seq<char>) -> Result<ModuleSpec, ErrorSpec> {
    parse_tokens(tokens_of(source))
}

fn unclosed_error(open: &Vec<Opener>, root: BlockKind) -> (out: AssemblyError)
    ensures
        out@ == unclosed(open@, root),
{
    if open.len() == 0 {
        AssemblyError::MissingEndFor(root)
    } else {
        match open[open.len() - 1] {
            Opener::If => AssemblyError::MissingEndFor(BlockKind::If),
            Opener::Else => AssemblyError::DanglingElse(ElseFault::NoEnd),
            Opener::While => AssemblyError::MissingEndFor(BlockKind::While),
            Opener::Repeat => AssemblyError::MissingEndFor(BlockKind::Repeat),
        }
    }
}

/// Reads a body from the stream, up to and including the `end` that closes it, and
/// returns its tokens without that `end`.
pub fn read_body(stream: &mut TokenStream, root: BlockKind, num_locals: u32) -> (out: Result<
    Vec<String>,
    AssemblyError,
>)
    ensures
        final(stream).tokens() == old(stream).tokens(),
        match scan_spec(
            old(stream).tokens(),
            old(stream).passed() as int,
            Seq::empty(),
            false,
            root,
            num_locals,
        ) {
            Ok(end) => out matches Ok(body) && old(stream).passed() <= end < old(
                stream,
            ).tokens().len() && strs(body@) == old(stream).tokens().subrange(
                old(stream).passed() as int,
                end,
            ) && final(stream).passed() == end + 1,
            Err(expected) => out matches Err(error) && error@ == expected,
        },
{
    let ghost tokens = stream.tokens();
    let ghost start = stream.passed() as int;
    let ghost goal = scan_spec(tokens, start, Seq::empty(), false, root, num_locals);
    let mut body: Vec<String> = Vec::new();
    let mut open: Vec<Opener> = Vec::new();
    let mut fresh = false;
    let _ = stream.pos();
    loop
        invariant
            stream.tokens() == tokens,
            tokens == old(stream).tokens(),
            start == old(stream).passed(),
            start <= stream.passed() <= tokens.len(),
            goal == scan_spec(tokens, start, Seq::empty(), false, root, num_locals),
            goal == scan_spec(tokens, stream.passed() as int, open@, fresh, root, num_locals),
            strs(body@) =~= tokens.subrange(start, stream.passed() as int),
        decreases tokens.len() - stream.passed(),
    {
        let token = match stream.read() {
            None => {
                return Err(unclosed_error(&open, root));
            },
            Some(token) => token.clone(),
        };
        match decode(&token, num_locals) {
            Err(e) => {
                return Err(e);
            },
            Ok(instruction) => match instruction {
                Instruction::Begin | Instruction::Proc { .. } | Instruction::Use { .. } => {
                    return Err(AssemblyError::UnexpectedBodyTermination { token });
                },
                Instruction::End => {
                    if open.len() == 0 {
                        stream.advance();
                        return Ok(body);
                    }
                    if fresh {
                        return Err(AssemblyError::EmptyCodeBlock);
                    }
                    open.pop();
                    fresh = false;
                },
                Instruction::IfTrue => {
                    open.push(Opener::If);
                    fresh = false;
                },
                Instruction::WhileTrue => {
                    open.push(Opener::While);
                    fresh = true;
                },
                Instruction::Repeat(_) => {
                    open.push(Opener::Repeat);
                    fresh = true;
                },
                Instruction::Else => {
                    if open.len() > 0 && open[open.len() - 1] == Opener::If {
                        open.pop();
                        open.push(Opener::Else);
                        fresh = false;
                    } else {
                        return Err(AssemblyError::DanglingElse(ElseFault::NoIf));
                    }
                },
                Instruction::Ops(_) | Instruction::Exec { .. } => {
                    fresh = false;
                },
            },
        }
        proof {
            lemma_strs_push(body@, token);
        }
        body.push(token);
        stream.advance();
    }
}

fn starts_declaration(token: &String) -> (out: bool)
    ensures
        out == declares(token@),
{
    let chars = to_chars(token.as_str());
    let parts = split_chars(&chars, '.');
    let root = &parts[0];
    assert(lists(parts@)[0] == root@);
    eq_lit(root, "use") || eq_lit(root, "proc") || eq_lit(root, "export") || eq_lit(root, "begin")
}

fn misplaced_error(token: String) -> (out: AssemblyError)
    ensures
        out@ == misplaced(token@),
{
    match decode(&token, 0) {
        Ok(Instruction::End) => AssemblyError::DanglingEnd,
        Ok(Instruction::Else) => AssemblyError::DanglingElse(ElseFault::NoIf),
        _ => AssemblyError::ExpectedBegin { found: token },
    }
}

fn find_name(procs: &Vec<ProcedureAst>, label: &String) -> (out: bool)
    ensures
        out == has_proc(Seq::new(procs@.len(), |i: int| procs@[i]@), label@),
{
    let ghost specs = Seq::new(procs@.len(), |i: int| procs@[i]@);
    let mut i: usize = 0;
    while i < procs.len()
        invariant
            i <= procs@.len(),
            specs == Seq::new(procs@.len(), |i: int| procs@[i]@),
            forall|k: int| 0 <= k < i ==> (#[trigger] specs[k]).name != label@,
        decreases procs@.len() - i,
    {
        if procs[i].name == *label {
            assert(specs[i as int].name == label@);
            return true;
        }
        i += 1;
    }
    false
}

fn find_export(procs: &Vec<ProcedureAst>) -> (out: bool)
    ensures
        out == has_export(Seq::new(procs@.len(), |i: int| procs@[i]@)),
{
    let ghost specs = Seq::new(procs@.len(), |i: int| procs@[i]@);
    let mut i: usize = 0;
    while i < procs.len()
        invariant
            i <= procs@.len(),
            specs == Seq::new(procs@.len(), |i: int| procs@[i]@),
            forall|k: int| 0 <= k < i ==> !(#[trigger] specs[k]).is_export,
        decreases procs@.len() - i,
    {
        if procs[i].is_export {
            assert(specs[i as int].is_export);
            return true;
        }
        i += 1;
    }
    false
}

/// Parses the declarations that follow the cursor of a stream.
///
/// The result is the module that the tokens from the cursor on declare; it is an error
/// exactly if one of the declarations is faulty, and the error is the first one in source
/// order.
pub fn parse_stream(stream: &mut TokenStream) -> (out: Result<ModuleAst, AssemblyError>)
    ensures
        final(stream).tokens() == old(stream).tokens(),
        agrees(out, parse_from(old(stream).tokens(), old(stream).passed() as int, empty_module())),
{
    let ghost tokens = stream.tokens();
    let ghost goal = parse_from(tokens, stream.passed() as int, empty_module());
    let mut module = ModuleAst { imports: Vec::new(), local_procs: Vec::new(), body: None };
    assert(module@.imports =~= empty_module().imports);
    assert(module@.local_procs =~= empty_module().local_procs);
    let _ = stream.pos();
    loop
        invariant
            stream.tokens() == tokens,
            tokens == old(stream).tokens(),
            stream.passed() <= tokens.len(),
            goal == parse_from(old(stream).tokens(), old(stream).passed() as int, empty_module()),
            goal == parse_from(tokens, stream.passed() as int, module@),
        decreases tokens.len() - stream.passed(),
    {
        let ghost pos = stream.passed() as int;
        let token = match stream.read() {
            None => {
                return Ok(module);
            },
            Some(token) => token.clone(),
        };
        if !starts_declaration(&token) {
            return Err(misplaced_error(token));
        }
        match decode(&token, 0) {
            Err(e) => {
                return Err(e);
            },
            Ok(Instruction::Use { alias, path }) => {
                let ghost before = module@;
                module.imports.push(Import { alias, path });
                assert(module@.imports =~= before.imports.push(
                    ImportSpec { alias: alias@, path: path@ },
                ));
                assert(module@.local_procs =~= before.local_procs);
                stream.advance();
            },
            Ok(Instruction::Proc { label, num_locals, is_export }) => {
                if find_name(&module.local_procs, &label) {
                    return Err(AssemblyError::DuplicateProcedureLabel { label });
                }
                stream.advance();
                match read_body(stream, BlockKind::Proc, num_locals) {
                    Err(e) => {
                        return Err(e);
                    },
                    Ok(body) => {
                        assert(strs(body@).len() == body@.len());
                        if body.len() == 0 {
                            return Err(AssemblyError::EmptyCodeBlock);
                        }
                        let ghost before = module@;
                        let proc = ProcedureAst { name: label, num_locals, is_export, body };
                        let ghost added = proc@;
                        module.local_procs.push(proc);
                        assert(module@.local_procs =~= before.local_procs.push(added));
                        assert(module@.imports =~= before.imports);
                    },
                }
            },
            Ok(Instruction::Begin) => {
                if find_export(&module.local_procs) {
                    return Err(AssemblyError::ExportedInProgram);
                }
                stream.advance();
                match read_body(stream, BlockKind::Begin, 0) {
                    Err(e) => {
                        return Err(e);
                    },
                    Ok(body) => {
                        assert(strs(body@).len() == body@.len());
                        if body.len() == 0 {
                            return Err(AssemblyError::EmptyCodeBlock);
                        }
                        if !stream.eof() {
                            return Err(AssemblyError::DanglingAfterProgram);
                        }
                        let ghost before = module@;
                        module.body = Some(body);
                        assert(module@.imports =~= before.imports);
                        assert(module@.local_procs =~= before.local_procs);
                        return Ok(module);
                    },
                }
            },
            Ok(_) => {
                return Err(AssemblyError::ExpectedBegin { found: token });
            },
        }
    }
}

/// Parses a module from its source text.
///
/// The result is the module that the text declares; it is an error exactly if the text
/// holds no token or one of its declarations is faulty, and the error is the first one in
/// source order.
pub fn parse_module(source: &str) -> (out: Result<ModuleAst, AssemblyError>)
    ensures
        agrees(out, parse_module_spec(source@)),
{
    match TokenStream::new(source) {
        Err(e) => Err(e),
        Ok(stream) => {
            let mut stream = stream;
            parse_stream(&mut stream)
        },
    }
}

} // verus!
