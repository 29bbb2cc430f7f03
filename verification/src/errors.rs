//! The errors that assembly can end with.

use crate::text::{push_lit, string_of};
use vstd::prelude::*;

verus! {

/// The kinds of construct that an `end` closes.
#[derive(Clone, Copy, Debug, PartialEq, Eq, Structural)]
pub enum BlockKind {
    Begin,
    Proc,
    If,
    While,
    Repeat,
}

/// What an `else` can lack.
#[derive(Clone, Copy, Debug, PartialEq, Eq, Structural)]
pub enum ElseFault {
    /// No `if.true` is open where the `else` stands.
    NoIf,
    /// The source ends before the `end` of the `else` branch.
    NoEnd,
}

/// An error that ends assembly.
#[derive(Clone, Debug, PartialEq, Eq)]
pub enum AssemblyError {
    /// The source holds no token.
    EmptySource,
    /// A token stands where only a declaration or `begin` can.
    ExpectedBegin { found: String },
    /// The source ends inside a construct of the given kind.
    MissingEndFor(BlockKind),
    /// Tokens follow the `end` of the program.
    DanglingAfterProgram,
    /// A body holds no instruction.
    EmptyCodeBlock,
    /// A declaration keyword stands inside a body.
    UnexpectedBodyTermination { token: String },
    /// An `exec` names a procedure that is not defined.
    UndefinedProcedure { name: String },
    /// An `exec` names a module that is not imported.
    UndefinedImport { alias: String },
    /// A procedure label is not an identifier.
    InvalidProcedureLabel { label: String },
    /// Two procedures of one module have the same label.
    DuplicateProcedureLabel { label: String },
    /// An `else` without its `if.true`, or without its `end`.
    DanglingElse(ElseFault),
    /// An `end` that closes nothing.
    DanglingEnd,
    /// An instruction with an invalid parameter (`param` holds it) or without a required
    /// one (`param` is `None`).
    MalformedInstruction { mnemonic: String, param: Option<String> },
    /// A token that is no instruction.
    UnknownInstruction { token: String },
    /// A program module declares an exported procedure.
    ExportedInProgram,
    /// Imported procedures call imported procedures beyond the supported depth.
    ImportNestingTooDeep,
}

/// The mathematical content of an [`AssemblyError`].
pub enum ErrorSpec {
    EmptySource,
    ExpectedBegin { found: Seq<char> },
    MissingEndFor(BlockKind),
    DanglingAfterProgram,
    EmptyCodeBlock,
    UnexpectedBodyTermination { token: Seq<char> },
    UndefinedProcedure { name: Seq<char> },
    UndefinedImport { alias: Seq<char> },
    InvalidProcedureLabel { label: Seq<char> },
    DuplicateProcedureLabel { label: Seq<char> },
    DanglingElse(ElseFault),
    DanglingEnd,
    MalformedInstruction { mnemonic: Seq<char>, param: Option<Seq<char>> },
    UnknownInstruction { token: Seq<char> },
    ExportedInProgram,
    ImportNestingTooDeep,
}

/// The word that names a kind of construct in messages.
pub open spec fn kind_text(kind: BlockKind) -> Seq<char> {
    match kind {
        BlockKind::Begin => "begin"@,
        BlockKind::Proc => "proc"@,
        BlockKind::If => "if"@,
        BlockKind::While => "while"@,
        BlockKind::Repeat => "repeat"@,
    }
}

impl ErrorSpec {
    /// The message of the error.
    pub open spec fn message(self) -> Seq<char> {
        match self {
            ErrorSpec::EmptySource => "source code cannot be an empty string"@,
            ErrorSpec::ExpectedBegin { found } => "unexpected token: expected 'begin' but was '"@
                + found + "'"@,
            ErrorSpec::MissingEndFor(kind) => if kind == BlockKind::If {
                "if without matching else/end"@
            } else {
                kind_text(kind) + " without matching end"@
            },
            ErrorSpec::DanglingAfterProgram => "dangling instructions after program end"@,
            ErrorSpec::EmptyCodeBlock => "a code block must contain at least one instruction"@,
            ErrorSpec::UnexpectedBodyTermination { token } =>
                "unexpected body termination: invalid token '"@ + token + "'"@,
            ErrorSpec::UndefinedProcedure { name } => "undefined procedure: "@ + name,
            ErrorSpec::UndefinedImport { alias } => "undefined import: "@ + alias,
            ErrorSpec::InvalidProcedureLabel { label } => "invalid procedure label: "@ + label,
            ErrorSpec::DuplicateProcedureLabel { label } => "duplicate procedure label: "@ + label,
            ErrorSpec::DanglingElse(fault) => match fault {
                ElseFault::NoIf => "else without matching if"@,
                ElseFault::NoEnd => "else without matching end"@,
            },
            ErrorSpec::DanglingEnd => "end without matching opener"@,
            ErrorSpec::MalformedInstruction { mnemonic, param } => match param {
                Some(p) => "malformed instruction `"@ + mnemonic + "`: parameter '"@ + p
                    + "' is invalid"@,
                None => "malformed instruction '"@ + mnemonic + "': missing required parameter"@,
            },
            ErrorSpec::UnknownInstruction { token } => "instruction '"@ + token + "' is invalid"@,
            ErrorSpec::ExportedInProgram => "a program cannot declare exported procedures"@,
            ErrorSpec::ImportNestingTooDeep => "imported procedures are nested too deeply"@,
        }
    }
}

impl View for AssemblyError {
    type V = ErrorSpec;

    open spec fn view(&self) -> ErrorSpec {
        match *self {
            AssemblyError::EmptySource => ErrorSpec::EmptySource,
            AssemblyError::ExpectedBegin { found } => ErrorSpec::ExpectedBegin { found: found@ },
            AssemblyError::MissingEndFor(kind) => ErrorSpec::MissingEndFor(kind),
            AssemblyError::DanglingAfterProgram => ErrorSpec::DanglingAfterProgram,
            AssemblyError::EmptyCodeBlock => ErrorSpec::EmptyCodeBlock,
            AssemblyError::UnexpectedBodyTermination { token } =>
                ErrorSpec::UnexpectedBodyTermination { token: token@ },
            AssemblyError::UndefinedProcedure { name } => ErrorSpec::UndefinedProcedure {
                name: name@,
            },
            AssemblyError::UndefinedImport { alias } => ErrorSpec::UndefinedImport {
                alias: alias@,
            },
            AssemblyError::InvalidProcedureLabel { label } => ErrorSpec::InvalidProcedureLabel {
                label: label@,
            },
            AssemblyError::DuplicateProcedureLabel { label } =>
                ErrorSpec::DuplicateProcedureLabel { label: label@ },
            AssemblyError::DanglingElse(fault) => ErrorSpec::DanglingElse(fault),
            AssemblyError::DanglingEnd => ErrorSpec::DanglingEnd,
            AssemblyError::MalformedInstruction { mnemonic, param } =>
                ErrorSpec::MalformedInstruction {
                    mnemonic: mnemonic@,
                    param: match param {
                        Some(p) => Some(p@),
                        None => None,
                    },
                },
            AssemblyError::UnknownInstruction { token } => ErrorSpec::UnknownInstruction {
                token: token@,
            },
            AssemblyError::ExportedInProgram => ErrorSpec::ExportedInProgram,
            AssemblyError::ImportNestingTooDeep => ErrorSpec::ImportNestingTooDeep,
        }
    }
}

fn lit_with(prefix: &str, subject: &String, suffix: &str) -> (out: String)
    ensures
        out@ == prefix@ + subject@ + suffix@,
{
    let mut buf: Vec<char> = Vec::new();
    push_lit(&mut buf, prefix);
    push_lit(&mut buf, subject.as_str());
    push_lit(&mut buf, suffix);
    assert(buf@ =~= prefix@ + subject@ + suffix@);
    string_of(&buf)
}

impl AssemblyError {
    /// Returns the message of the error.
    pub fn to_string(&self) -> (out: String)
        ensures
            out@ == self@.message(),
    {
        match self {
            AssemblyError::EmptySource => String::from_str(
                "source code cannot be an empty string",
            ),
            AssemblyError::ExpectedBegin { found } => lit_with(
                "unexpected token: expected 'begin' but was '",
                found,
                "'",
            ),
            AssemblyError::MissingEndFor(kind) => match kind {
                BlockKind::If => String::from_str("if without matching else/end"),
                BlockKind::Begin => String::from_str("begin").concat(" without matching end"),
                BlockKind::Proc => String::from_str("proc").concat(" without matching end"),
                BlockKind::While => String::from_str("while").concat(" without matching end"),
                BlockKind::Repeat => String::from_str("repeat").concat(" without matching end"),
            },
            AssemblyError::DanglingAfterProgram => String::from_str(
                "dangling instructions after program end",
            ),
            AssemblyError::EmptyCodeBlock => String::from_str(
                "a code block must contain at least one instruction",
            ),
            AssemblyError::UnexpectedBodyTermination { token } => lit_with(
                "unexpected body termination: invalid token '",
                token,
                "'",
            ),
            AssemblyError::UndefinedProcedure { name } => String::from_str(
                "undefined procedure: ",
            ).concat(name.as_str()),
            AssemblyError::UndefinedImport { alias } => String::from_str(
                "undefined import: ",
            ).concat(alias.as_str()),
            AssemblyError::InvalidProcedureLabel { label } => String::from_str(
                "invalid procedure label: ",
            ).concat(label.as_str()),
            AssemblyError::DuplicateProcedureLabel { label } => String::from_str(
                "duplicate procedure label: ",
            ).concat(label.as_str()),
            AssemblyError::DanglingElse(fault) => match fault {
                ElseFault::NoIf => String::from_str("else without matching if"),
                ElseFault::NoEnd => String::from_str("else without matching end"),
            },
            AssemblyError::DanglingEnd => String::from_str("end without matching opener"),
            AssemblyError::MalformedInstruction { mnemonic, param } => match param {
                Some(p) => lit_with("malformed instruction `", mnemonic, "`: parameter '").concat(
                    p.as_str(),
                ).concat("' is invalid"),
                None => lit_with(
                    "malformed instruction '",
                    mnemonic,
                    "': missing required parameter",
                ),
            },
            AssemblyError::UnknownInstruction { token } => lit_with(
                "instruction '",
                token,
                "' is invalid",
            ),
            AssemblyError::ExportedInProgram => String::from_str(
                "a program cannot declare exported procedures",
            ),
            AssemblyError::ImportNestingTooDeep => String::from_str(
                "imported procedures are nested too deeply",
            ),
        }
    }
}


/// Whether a result agrees with what is expected of it: both succeed with the same
/// content, or both fail with the same error.
pub open spec fn agrees<T: View, E: View>(out: Result<T, E>, expected: Result<T::V, E::V>) -> bool {
    match (out, expected) {
        (Ok(value), Ok(content)) => value@ == content,
        (Err(error), Err(content)) => error@ == content,
        _ => false,
    }
}

} // verus!
