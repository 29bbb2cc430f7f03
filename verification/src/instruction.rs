//! Decoding of single tokens.
//!
//! A token is a mnemonic followed by parameters, each introduced by a dot. It is either a
//! keyword that structures the source or an instruction that lowers to operations.

use crate::decimal::{parse_u64, parse_u64_spec};
use crate::errors::{agrees, AssemblyError, ErrorSpec};
use crate::mnemonic::{find_mnemonic, mnemonic_of, Mnemonic, ParamRule};
use crate::operation::Operation;
use crate::text::{eq_lit, string_of, to_chars};
use vstd::prelude::*;

verus! {

/// The texts of a sequence of character vectors.
pub open spec fn lists(v: Seq<Vec<char>>) -> Seq<Seq<char>> {
    Seq::new(v.len(), |i: int| v[i]@)
}

/// The pieces of `s` that are complete, and the piece being read, when `s` is cut at each
/// occurrence of `sep`.
pub open spec fn split_state(s: Seq<char>, sep: char) -> (Seq<Seq<char>>, Seq<char>)
    decreases s.len(),
{
    if s.len() == 0 {
        (Seq::empty(), Seq::empty())
    } else {
        let (done, current) = split_state(s.drop_last(), sep);
        if s.last() == sep {
            (done.push(current), Seq::empty())
        } else {
            (done, current.push(s.last()))
        }
    }
}

/// The pieces of `s` between the occurrences of `sep`. There is always at least one piece;
/// pieces can be empty.
pub open spec fn split(s: Seq<char>, sep: char) -> Seq<Seq<char>> {
    split_state(s, sep).0.push(split_state(s, sep).1)
}

/// Cuts `s` at each occurrence of `sep`.
pub fn split_chars(s: &Vec<char>, sep: char) -> (out: Vec<Vec<char>>)
    ensures
        lists(out@) == split(s@, sep),
        out@.len() >= 1,
{
    let mut done: Vec<Vec<char>> = Vec::new();
    let mut current: Vec<char> = Vec::new();
    let mut i: usize = 0;
    while i < s.len()
        invariant
            i <= s@.len(),
            lists(done@) =~= split_state(s@.take(i as int), sep).0,
            current@ =~= split_state(s@.take(i as int), sep).1,
        decreases s@.len() - i,
    {
        proof {
            assert(s@.take(i + 1).drop_last() == s@.take(i as int));
        }
        let c = s[i];
        if c == sep {
            done.push(current);
            current = Vec::new();
        } else {
            current.push(c);
        }
        i += 1;
    }
    proof {
        assert(s@.take(i as int) == s@);
    }
    done.push(current);
    assert(lists(done@) =~= split(s@, sep));
    done
}

/// Whether `c` can start a label: an ASCII letter or an underscore.
pub open spec fn is_label_start(c: char) -> bool {
    ('a' <= c && c <= 'z') || ('A' <= c && c <= 'Z') || c == '_'
}

/// Whether `c` can stand in a label: an ASCII letter, a digit or an underscore.
pub open spec fn is_label_char(c: char) -> bool {
    is_label_start(c) || ('0' <= c && c <= '9')
}

/// Whether `s` is a label: a letter or underscore followed by letters, digits and
/// underscores.
pub open spec fn is_label(s: Seq<char>) -> bool {
    &&& s.len() > 0
    &&& is_label_start(s[0])
    &&& forall|i: int| 0 <= i < s.len() ==> is_label_char(#[trigger] s[i])
}

/// Tells whether `s` is a label.
pub fn check_label(s: &Vec<char>) -> (out: bool)
    ensures
        out == is_label(s@),
{
    if s.len() == 0 {
        return false;
    }
    let c = s[0];
    if !(('a' <= c && c <= 'z') || ('A' <= c && c <= 'Z') || c == '_') {
        return false;
    }
    let mut i: usize = 1;
    while i < s.len()
        invariant
            1 <= i <= s@.len(),
            is_label_start(s@[0]),
            forall|k: int| 0 <= k < i ==> is_label_char(#[trigger] s@[k]),
        decreases s@.len() - i,
    {
        let c = s[i];
        if !(('a' <= c && c <= 'z') || ('A' <= c && c <= 'Z') || c == '_' || ('0' <= c && c
            <= '9')) {
            return false;
        }
        i += 1;
    }
    true
}

/// Whether the pieces of a path cut at every colon are those of labels joined by `::`.
pub open spec fn is_path(pieces: Seq<Seq<char>>) -> bool {
    &&& pieces.len() % 2 == 1
    &&& forall|i: int|
        0 <= i < pieces.len() ==> if i % 2 == 0 {
            is_label(#[trigger] pieces[i])
        } else {
            pieces[i].len() == 0
        }
}

fn check_path(pieces: &Vec<Vec<char>>) -> (out: bool)
    ensures
        out == is_path(lists(pieces@)),
{
    if pieces.len() % 2 != 1 {
        return false;
    }
    let mut i: usize = 0;
    while i < pieces.len()
        invariant
            i <= pieces@.len(),
            pieces@.len() % 2 == 1,
            forall|k: int|
                0 <= k < i ==> if k % 2 == 0 {
                    is_label(#[trigger] lists(pieces@)[k])
                } else {
                    lists(pieces@)[k].len() == 0
                },
        decreases pieces@.len() - i,
    {
        if i % 2 == 0 {
            if !check_label(&pieces[i]) {
                assert(!is_label(lists(pieces@)[i as int]));
                return false;
            }
        } else {
            if pieces[i].len() != 0 {
                assert(lists(pieces@)[i as int].len() != 0);
                return false;
            }
        }
        i += 1;
    }
    true
}

/// What a token says.
#[derive(Debug)]
pub enum Instruction {
    /// An instruction, lowered to its operations.
    Ops(Vec<Operation>),
    /// `begin`: the start of the program body.
    Begin,
    /// `proc.label.locals` or `export.label.locals`: the start of a procedure.
    Proc { label: String, num_locals: u32, is_export: bool },
    /// `use.path`: an import; `alias` is the last segment of the path.
    Use { alias: String, path: String },
    /// `if.true`: the start of a conditional.
    IfTrue,
    /// `else`: the start of the second branch of a conditional.
    Else,
    /// `while.true`: the start of a loop.
    WhileTrue,
    /// `repeat.count`: the start of a body that is repeated `count` times.
    Repeat(u32),
    /// `end`: the end of a body.
    End,
    /// `exec.name` or `exec.module::name`: a call of a procedure.
    Exec { module: Option<String>, name: String },
}

/// The mathematical content of an [`Instruction`].
pub enum InstructionSpec {
    Ops(Seq<Operation>),
    Begin,
    Proc { label: Seq<char>, num_locals: u32, is_export: bool },
    Use { alias: Seq<char>, path: Seq<char> },
    IfTrue,
    Else,
    WhileTrue,
    Repeat(u32),
    End,
    Exec { module: Option<Seq<char>>, name: Seq<char> },
}

impl View for Instruction {
    type V = InstructionSpec;

    open spec fn view(&self) -> InstructionSpec {
        match *self {
            Instruction::Ops(ops) => InstructionSpec::Ops(ops@),
            Instruction::Begin => InstructionSpec::Begin,
            Instruction::Proc { label, num_locals, is_export } => InstructionSpec::Proc {
                label: label@,
                num_locals,
                is_export,
            },
            Instruction::Use { alias, path } => InstructionSpec::Use { alias: alias@, path: path@ },
            Instruction::IfTrue => InstructionSpec::IfTrue,
            Instruction::Else => InstructionSpec::Else,
            Instruction::WhileTrue => InstructionSpec::WhileTrue,
            Instruction::Repeat(count) => InstructionSpec::Repeat(count),
            Instruction::End => InstructionSpec::End,
            Instruction::Exec { module, name } => InstructionSpec::Exec {
                module: match module {
                    Some(m) => Some(m@),
                    None => None,
                },
                name: name@,
            },
        }
    }
}

/// The error for a token whose parameter `param` is invalid.
pub open spec fn invalid_param(token: Seq<char>, param: Seq<char>) -> ErrorSpec {
    ErrorSpec::MalformedInstruction { mnemonic: token, param: Some(param) }
}

/// The error for a token that lacks a parameter.
pub open spec fn missing_param(token: Seq<char>) -> ErrorSpec {
    ErrorSpec::MalformedInstruction { mnemonic: token, param: None }
}

/// A keyword that takes no parameter.
pub open spec fn decode_bare(
    token: Seq<char>,
    parts: Seq<Seq<char>>,
    keyword: InstructionSpec,
) -> Result<InstructionSpec, ErrorSpec> {
    if parts.len() > 1 {
        Err(invalid_param(token, parts[1]))
    } else {
        Ok(keyword)
    }
}

/// A keyword that must be followed by `.true`.
pub open spec fn decode_flagged(
    token: Seq<char>,
    parts: Seq<Seq<char>>,
    keyword: InstructionSpec,
) -> Result<InstructionSpec, ErrorSpec> {
    if parts.len() == 1 {
        Err(missing_param(token))
    } else if parts[1] != "true"@ {
        Err(invalid_param(token, parts[1]))
    } else if parts.len() > 2 {
        Err(invalid_param(token, parts[2]))
    } else {
        Ok(keyword)
    }
}

/// `repeat.count`, with a count of at least one.
pub open spec fn decode_repeat(token: Seq<char>, parts: Seq<Seq<char>>) -> Result<
    InstructionSpec,
    ErrorSpec,
> {
    if parts.len() == 1 {
        Err(missing_param(token))
    } else {
        match parse_u64_spec(parts[1]) {
            Some(count) => if count == 0 || count > u32::MAX {
                Err(invalid_param(token, parts[1]))
            } else if parts.len() > 2 {
                Err(invalid_param(token, parts[2]))
            } else {
                Ok(InstructionSpec::Repeat(count as u32))
            },
            None => Err(invalid_param(token, parts[1])),
        }
    }
}

/// `proc.label` or `export.label`, optionally followed by the number of locals.
pub open spec fn decode_proc(token: Seq<char>, parts: Seq<Seq<char>>, is_export: bool) -> Result<
    InstructionSpec,
    ErrorSpec,
> {
    if parts.len() == 1 {
        Err(missing_param(token))
    } else if !is_label(parts[1]) {
        Err(ErrorSpec::InvalidProcedureLabel { label: parts[1] })
    } else if parts.len() == 2 {
        Ok(InstructionSpec::Proc { label: parts[1], num_locals: 0, is_export })
    } else {
        match parse_u64_spec(parts[2]) {
            Some(count) => if count > u32::MAX {
                Err(invalid_param(token, parts[2]))
            } else if parts.len() > 3 {
                Err(invalid_param(token, parts[3]))
            } else {
                Ok(InstructionSpec::Proc { label: parts[1], num_locals: count as u32, is_export })
            },
            None => Err(invalid_param(token, parts[2])),
        }
    }
}

/// `use.path`, where the path is made of labels joined by `::`.
pub open spec fn decode_use(token: Seq<char>, parts: Seq<Seq<char>>) -> Result<
    InstructionSpec,
    ErrorSpec,
> {
    if parts.len() == 1 {
        Err(missing_param(token))
    } else if parts.len() > 2 {
        Err(invalid_param(token, parts[2]))
    } else if !is_path(split(parts[1], ':')) {
        Err(invalid_param(token, parts[1]))
    } else {
        Ok(InstructionSpec::Use { alias: split(parts[1], ':').last(), path: parts[1] })
    }
}

/// `exec.name` or `exec.module::name`.
pub open spec fn decode_exec(token: Seq<char>, parts: Seq<Seq<char>>) -> Result<
    InstructionSpec,
    ErrorSpec,
> {
    if parts.len() == 1 {
        Err(missing_param(token))
    } else if parts.len() > 2 {
        Err(invalid_param(token, parts[2]))
    } else {
        let pieces = split(parts[1], ':');
        if pieces.len() == 1 && is_label(pieces[0]) {
            Ok(InstructionSpec::Exec { module: None, name: pieces[0] })
        } else if pieces.len() == 3 && is_label(pieces[0]) && pieces[1].len() == 0 && is_label(
            pieces[2],
        ) {
            Ok(InstructionSpec::Exec { module: Some(pieces[0]), name: pieces[2] })
        } else {
            Err(ErrorSpec::InvalidProcedureLabel { label: parts[1] })
        }
    }
}

/// An instruction that lowers to operations, inside a procedure with `num_locals` locals.
pub open spec fn decode_op(token: Seq<char>, parts: Seq<Seq<char>>, num_locals: u32) -> Result<
    InstructionSpec,
    ErrorSpec,
> {
    match mnemonic_of(parts[0]) {
        None => Err(ErrorSpec::UnknownInstruction { token }),
        Some(m) => if parts.len() == 1 {
            if m.rule_spec() == ParamRule::Required {
                Err(missing_param(token))
            } else {
                Ok(InstructionSpec::Ops(m.plain_ops()))
            }
        } else if m.rule_spec() == ParamRule::Forbidden {
            Err(invalid_param(token, parts[1]))
        } else {
            match parse_u64_spec(parts[1]) {
                None => Err(invalid_param(token, parts[1])),
                Some(value) => match m.param_ops(value, num_locals) {
                    None => Err(invalid_param(token, parts[1])),
                    Some(ops) => if parts.len() > 2 {
                        Err(invalid_param(token, parts[2]))
                    } else {
                        Ok(InstructionSpec::Ops(ops))
                    },
                },
            }
        },
    }
}

/// What the token `token` says inside a procedure with `num_locals` locals, or why it
/// says nothing.
pub open spec fn decode_spec(token: Seq<char>, num_locals: u32) -> Result<
    InstructionSpec,
    ErrorSpec,
> {
    let parts = split(token, '.');
    let root = parts[0];
    if root == "begin"@ {
        decode_bare(token, parts, InstructionSpec::Begin)
    } else if root == "end"@ {
        decode_bare(token, parts, InstructionSpec::End)
    } else if root == "else"@ {
        decode_bare(token, parts, InstructionSpec::Else)
    } else if root == "if"@ {
        decode_flagged(token, parts, InstructionSpec::IfTrue)
    } else if root == "while"@ {
        decode_flagged(token, parts, InstructionSpec::WhileTrue)
    } else if root == "repeat"@ {
        decode_repeat(token, parts)
    } else if root == "proc"@ {
        decode_proc(token, parts, false)
    } else if root == "export"@ {
        decode_proc(token, parts, true)
    } else if root == "use"@ {
        decode_use(token, parts)
    } else if root == "exec"@ {
        decode_exec(token, parts)
    } else {
        decode_op(token, parts, num_locals)
    }
}

fn malformed(token: &String, param: &Vec<char>) -> (out: AssemblyError)
    ensures
        out@ == invalid_param(token@, param@),
{
    AssemblyError::MalformedInstruction { mnemonic: token.clone(), param: Some(string_of(param)) }
}

fn incomplete(token: &String) -> (out: AssemblyError)
    ensures
        out@ == missing_param(token@),
{
    AssemblyError::MalformedInstruction { mnemonic: token.clone(), param: None }
}

fn bare(token: &String, parts: &Vec<Vec<char>>, keyword: Instruction) -> (out: Result<
    Instruction,
    AssemblyError,
>)
    requires
        parts@.len() >= 1,
    ensures
        agrees(out, decode_bare(token@, lists(parts@), keyword@)),
{
    if parts.len() > 1 {
        Err(malformed(token, &parts[1]))
    } else {
        Ok(keyword)
    }
}

fn flagged(token: &String, parts: &Vec<Vec<char>>, keyword: Instruction) -> (out: Result<
    Instruction,
    AssemblyError,
>)
    requires
        parts@.len() >= 1,
    ensures
        agrees(out, decode_flagged(token@, lists(parts@), keyword@)),
{
    if parts.len() == 1 {
        Err(incomplete(token))
    } else if !eq_lit(&parts[1], "true") {
        Err(malformed(token, &parts[1]))
    } else if parts.len() > 2 {
        Err(malformed(token, &parts[2]))
    } else {
        Ok(keyword)
    }
}

fn repeat(token: &String, parts: &Vec<Vec<char>>) -> (out: Result<Instruction, AssemblyError>)
    requires
        parts@.len() >= 1,
    ensures
        agrees(out, decode_repeat(token@, lists(parts@))),
{
    if parts.len() == 1 {
        return Err(incomplete(token));
    }
    match parse_u64(&parts[1]) {
        Some(count) => {
            if count == 0 || count > u32::MAX as u64 {
                Err(malformed(token, &parts[1]))
            } else if parts.len() > 2 {
                Err(malformed(token, &parts[2]))
            } else {
                Ok(Instruction::Repeat(count as u32))
            }
        },
        None => Err(malformed(token, &parts[1])),
    }
}

fn procedure(token: &String, parts: &Vec<Vec<char>>, is_export: bool) -> (out: Result<
    Instruction,
    AssemblyError,
>)
    requires
        parts@.len() >= 1,
    ensures
        agrees(out, decode_proc(token@, lists(parts@), is_export)),
{
    if parts.len() == 1 {
        return Err(incomplete(token));
    }
    if !check_label(&parts[1]) {
        return Err(AssemblyError::InvalidProcedureLabel { label: string_of(&parts[1]) });
    }
    if parts.len() == 2 {
        return Ok(Instruction::Proc { label: string_of(&parts[1]), num_locals: 0, is_export });
    }
    match parse_u64(&parts[2]) {
        Some(count) => {
            if count > u32::MAX as u64 {
                Err(malformed(token, &parts[2]))
            } else if parts.len() > 3 {
                Err(malformed(token, &parts[3]))
            } else {
                Ok(
                    Instruction::Proc {
                        label: string_of(&parts[1]),
                        num_locals: count as u32,
                        is_export,
                    },
                )
            }
        },
        None => Err(malformed(token, &parts[2])),
    }
}

fn import(token: &String, parts: &Vec<Vec<char>>) -> (out: Result<Instruction, AssemblyError>)
    requires
        parts@.len() >= 1,
    ensures
        agrees(out, decode_use(token@, lists(parts@))),
{
    if parts.len() == 1 {
        return Err(incomplete(token));
    }
    if parts.len() > 2 {
        return Err(malformed(token, &parts[2]));
    }
    let pieces = split_chars(&parts[1], ':');
    if !check_path(&pieces) {
        return Err(malformed(token, &parts[1]));
    }
    let alias = string_of(&pieces[pieces.len() - 1]);
    assert(alias@ == lists(pieces@).last());
    Ok(Instruction::Use { alias, path: string_of(&parts[1]) })
}

fn call(token: &String, parts: &Vec<Vec<char>>) -> (out: Result<Instruction, AssemblyError>)
    requires
        parts@.len() >= 1,
    ensures
        agrees(out, decode_exec(token@, lists(parts@))),
{
    if parts.len() == 1 {
        return Err(incomplete(token));
    }
    if parts.len() > 2 {
        return Err(malformed(token, &parts[2]));
    }
    let pieces = split_chars(&parts[1], ':');
    if pieces.len() == 1 && check_label(&pieces[0]) {
        assert(lists(pieces@)[0] == pieces@[0]@);
        Ok(Instruction::Exec { module: None, name: string_of(&pieces[0]) })
    } else if pieces.len() == 3 && check_label(&pieces[0]) && pieces[1].len() == 0 && check_label(
        &pieces[2],
    ) {
        assert(lists(pieces@)[0] == pieces@[0]@);
        assert(lists(pieces@)[1] == pieces@[1]@);
        assert(lists(pieces@)[2] == pieces@[2]@);
        Ok(
            Instruction::Exec {
                module: Some(string_of(&pieces[0])),
                name: string_of(&pieces[2]),
            },
        )
    } else {
        proof {
            if pieces@.len() >= 1 {
                assert(lists(pieces@)[0] == pieces@[0]@);
            }
            if pieces@.len() >= 3 {
                assert(lists(pieces@)[1] == pieces@[1]@);
                assert(lists(pieces@)[2] == pieces@[2]@);
            }
        }
        Err(AssemblyError::InvalidProcedureLabel { label: string_of(&parts[1]) })
    }
}

fn operation(token: &String, parts: &Vec<Vec<char>>, num_locals: u32) -> (out: Result<
    Instruction,
    AssemblyError,
>)
    requires
        parts@.len() >= 1,
    ensures
        agrees(out, decode_op(token@, lists(parts@), num_locals)),
{
    let m: Mnemonic = match find_mnemonic(&parts[0]) {
        None => {
            return Err(AssemblyError::UnknownInstruction { token: token.clone() });
        },
        Some(m) => m,
    };
    let mut ops: Vec<Operation> = Vec::new();
    if parts.len() == 1 {
        if m.rule() == ParamRule::Required {
            return Err(incomplete(token));
        }
        m.lower_plain(&mut ops);
        assert(ops@ =~= m.plain_ops());
        return Ok(Instruction::Ops(ops));
    }
    if m.rule() == ParamRule::Forbidden {
        return Err(malformed(token, &parts[1]));
    }
    match parse_u64(&parts[1]) {
        None => Err(malformed(token, &parts[1])),
        Some(value) => {
            if !m.lower_param(value, num_locals, &mut ops) {
                Err(malformed(token, &parts[1]))
            } else if parts.len() > 2 {
                Err(malformed(token, &parts[2]))
            } else {
                assert(ops@ =~= m.param_ops(value, num_locals).unwrap());
                Ok(Instruction::Ops(ops))
            }
        },
    }
}

/// Decodes one token inside a procedure with `num_locals` locals (none outside of
/// procedures).
pub fn decode(token: &String, num_locals: u32) -> (out: Result<Instruction, AssemblyError>)
    ensures
        agrees(out, decode_spec(token@, num_locals)),
{
    let chars = to_chars(token.as_str());
    let parts = split_chars(&chars, '.');
    let root = &parts[0];
    assert(lists(parts@)[0] == root@);
    if eq_lit(root, "begin") {
        bare(token, &parts, Instruction::Begin)
    } else if eq_lit(root, "end") {
        bare(token, &parts, Instruction::End)
    } else if eq_lit(root, "else") {
        bare(token, &parts, Instruction::Else)
    } else if eq_lit(root, "if") {
        flagged(token, &parts, Instruction::IfTrue)
    } else if eq_lit(root, "while") {
        flagged(token, &parts, Instruction::WhileTrue)
    } else if eq_lit(root, "repeat") {
        repeat(token, &parts)
    } else if eq_lit(root, "proc") {
        procedure(token, &parts, false)
    } else if eq_lit(root, "export") {
        procedure(token, &parts, true)
    } else if eq_lit(root, "use") {
        import(token, &parts)
    } else if eq_lit(root, "exec") {
        call(token, &parts)
    } else {
        operation(token, &parts, num_locals)
    }
}

} // verus!
