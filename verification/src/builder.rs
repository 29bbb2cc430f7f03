//! Building of block trees from token bodies.
//!
//! A body is read token by token. Operations and finished blocks collect in the frame of
//! the innermost open construct; an `end` turns the frame into a block of its parent, or,
//! for a repetition, into copies of its items. A call puts the items of the callee's body
//! in place of the call. When the body ends, runs of operations become spans, and the
//! blocks are joined from left to right.

use crate::blocks::{CodeBlock, Tree};
use crate::errors::{agrees, AssemblyError, BlockKind, ElseFault, ErrorSpec};
use crate::hasher::MODULUS;
use crate::instruction::{decode, decode_spec, Instruction, InstructionSpec};
use crate::operation::Operation;
use crate::parser::{ImportSpec, ModuleAst, ModuleSpec, ProcedureSpec};
use crate::procedures::{procedure_id, ModuleProvider, NamedModuleSpec, ProcedureId};
use crate::text::strs;
use vstd::prelude::*;

verus! {

/// How deep calls of imported procedures can nest: a procedure of an imported module can
/// call procedures of modules that its own module imports, and so on, up to this depth.
pub const MAX_IMPORT_DEPTH: u32 = 64;

/// The mathematical content of an [`Item`].
pub enum ItemSpec {
    Op(Operation),
    Block(Tree),
}

/// What a body is made of: operations and finished blocks.
#[derive(Debug)]
pub enum Item {
    Op(Operation),
    Block(CodeBlock),
}

impl View for Item {
    type V = ItemSpec;

    open spec fn view(&self) -> ItemSpec {
        match *self {
            Item::Op(op) => ItemSpec::Op(op),
            Item::Block(block) => ItemSpec::Block(block@),
        }
    }
}

/// The contents of a sequence of items.
pub open spec fn items_view(v: Seq<Item>) -> Seq<ItemSpec> {
    Seq::new(v.len(), |i: int| v[i]@)
}

/// The items that a run of operations is.
pub open spec fn ops_items(ops: Seq<Operation>) -> Seq<ItemSpec> {
    Seq::new(ops.len(), |i: int| ItemSpec::Op(ops[i]))
}

/// The blocks, with the operations that follow the last of them turned into a span, if
/// there are any.
pub open spec fn close_span(blocks: Seq<Tree>, ops: Seq<Operation>) -> Seq<Tree> {
    if ops.len() > 0 {
        blocks.push(Tree::Span(ops))
    } else {
        blocks
    }
}

/// The blocks that are complete, and the operations that follow the last of them, after
/// the given items.
pub open spec fn group_state(items: Seq<ItemSpec>) -> (Seq<Tree>, Seq<Operation>)
    decreases items.len(),
{
    if items.len() == 0 {
        (Seq::empty(), Seq::empty())
    } else {
        let (blocks, ops) = group_state(items.drop_last());
        match items.last() {
            ItemSpec::Op(op) => (blocks, ops.push(op)),
            ItemSpec::Block(block) => (close_span(blocks, ops).push(block), Seq::empty()),
        }
    }
}

/// The blocks of a body: each maximal run of operations is one span, and the other items
/// are blocks already.
pub open spec fn blocks_of(items: Seq<ItemSpec>) -> Seq<Tree> {
    close_span(group_state(items).0, group_state(items).1)
}

/// The span that holds a single `noop`.
pub open spec fn noop_span() -> Tree {
    Tree::Span(seq![Operation::Noop])
}

/// The blocks joined from left to right: a single block is itself, and for more, the
/// join of all but the last is joined with the last.
pub open spec fn join_all(blocks: Seq<Tree>) -> Tree
    decreases blocks.len(),
{
    if blocks.len() == 0 {
        noop_span()
    } else if blocks.len() == 1 {
        blocks[0]
    } else {
        Tree::Join(Box::new(join_all(blocks.drop_last())), Box::new(blocks.last()))
    }
}

/// The block of a body that holds the given items.
pub open spec fn assemble(items: Seq<ItemSpec>) -> Tree {
    join_all(blocks_of(items))
}

/// The block of a branch of a conditional: a branch without items is a single `noop`.
pub open spec fn arm(items: Seq<ItemSpec>) -> Tree {
    if items.len() == 0 {
        noop_span()
    } else {
        assemble(items)
    }
}

/// The items repeated `count` times.
pub open spec fn repeat_items(items: Seq<ItemSpec>, count: nat) -> Seq<ItemSpec>
    decreases count,
{
    if count == 0 {
        Seq::empty()
    } else {
        repeat_items(items, (count - 1) as nat) + items
    }
}

/// The operations that reserve `num_locals` words of local memory.
pub open spec fn prologue(num_locals: u32) -> Seq<ItemSpec> {
    seq![ItemSpec::Op(Operation::Push(num_locals as u64)), ItemSpec::Op(Operation::FmpUpdate)]
}

/// The operations that release `num_locals` words of local memory.
pub open spec fn epilogue(num_locals: u32) -> Seq<ItemSpec> {
    seq![
        ItemSpec::Op(Operation::Push((MODULUS - num_locals) as u64)),
        ItemSpec::Op(Operation::FmpUpdate),
    ]
}

/// The items of a call of a procedure with `num_locals` locals whose body holds `items`.
pub open spec fn framed(num_locals: u32, items: Seq<ItemSpec>) -> Seq<ItemSpec> {
    if num_locals == 0 {
        items
    } else {
        prologue(num_locals) + items + epilogue(num_locals)
    }
}

/// The kinds of frame.
#[derive(Clone, Copy, Debug, PartialEq, Eq, Structural)]
pub enum FrameKind {
    /// The body itself.
    Root,
    /// The first branch of a conditional.
    Then,
    /// The second branch of a conditional.
    Else,
    /// The body of a loop.
    While,
    /// A body that is repeated the given number of times.
    Repeat(u32),
}

/// The mathematical content of a frame.
pub struct FrameSpec {
    /// The construct that the frame is for.
    pub kind: FrameKind,
    /// The items collected so far.
    pub items: Seq<ItemSpec>,
    /// In the second branch of a conditional, the items of the first.
    pub saved: Seq<ItemSpec>,
}

/// An empty frame of the given kind.
pub open spec fn new_frame(kind: FrameKind) -> FrameSpec {
    FrameSpec { kind, items: Seq::empty(), saved: Seq::empty() }
}

/// The frames with `more` added to the items of the innermost.
pub open spec fn push_items(frames: Seq<FrameSpec>, more: Seq<ItemSpec>) -> Seq<FrameSpec>
    recommends
        frames.len() > 0,
{
    frames.drop_last().push(FrameSpec { items: frames.last().items + more, ..frames.last() })
}

/// The frames after an `end`: the innermost frame is closed and becomes items of its
/// parent.
pub open spec fn close_frame(frames: Seq<FrameSpec>) -> Result<Seq<FrameSpec>, ErrorSpec>
    recommends
        frames.len() > 0,
{
    let top = frames.last();
    let rest = frames.drop_last();
    match top.kind {
        FrameKind::Root => Err(ErrorSpec::DanglingEnd),
        FrameKind::Then => Ok(
            push_items(
                rest,
                seq![
                    ItemSpec::Block(
                        Tree::Split(Box::new(arm(top.items)), Box::new(noop_span())),
                    ),
                ],
            ),
        ),
        FrameKind::Else => Ok(
            push_items(
                rest,
                seq![
                    ItemSpec::Block(
                        Tree::Split(Box::new(arm(top.saved)), Box::new(arm(top.items))),
                    ),
                ],
            ),
        ),
        FrameKind::While => if top.items.len() == 0 {
            Err(ErrorSpec::EmptyCodeBlock)
        } else {
            Ok(push_items(rest, seq![ItemSpec::Block(Tree::Loop(Box::new(assemble(top.items))))]))
        },
        FrameKind::Repeat(count) => if top.items.len() == 0 {
            Err(ErrorSpec::EmptyCodeBlock)
        } else {
            Ok(push_items(rest, repeat_items(top.items, count as nat)))
        },
    }
}

/// The error for a body that ends while `frames` are open.
pub open spec fn unfinished(frames: Seq<FrameSpec>) -> ErrorSpec
    recommends
        frames.len() > 0,
{
    match frames.last().kind {
        FrameKind::Root => ErrorSpec::EmptyCodeBlock,
        FrameKind::Then => ErrorSpec::MissingEndFor(BlockKind::If),
        FrameKind::Else => ErrorSpec::DanglingElse(ElseFault::NoEnd),
        FrameKind::While => ErrorSpec::MissingEndFor(BlockKind::While),
        FrameKind::Repeat(_) => ErrorSpec::MissingEndFor(BlockKind::Repeat),
    }
}

/// The items of a body that ends with the given frames: the body must have closed what it
/// opened, and hold at least one item.
pub open spec fn finish(frames: Seq<FrameSpec>) -> Result<Seq<ItemSpec>, ErrorSpec>
    recommends
        frames.len() > 0,
{
    if frames.len() == 1 && frames[0].items.len() > 0 {
        Ok(frames[0].items)
    } else {
        Err(unfinished(frames))
    }
}

/// The position of the first procedure at or after `from` with the given name.
pub open spec fn find_proc_from(procs: Seq<ProcedureSpec>, name: Seq<char>, from: int) -> Option<
    int,
>
    decreases procs.len() - from,
{
    if from < 0 || from >= procs.len() {
        None
    } else if procs[from].name == name {
        Some(from)
    } else {
        find_proc_from(procs, name, from + 1)
    }
}

/// The position of the first procedure with the given name.
pub open spec fn find_proc(procs: Seq<ProcedureSpec>, name: Seq<char>) -> Option<int> {
    find_proc_from(procs, name, 0)
}

/// The path of the last import with the given alias.
pub open spec fn find_import(imports: Seq<ImportSpec>, alias: Seq<char>) -> Option<Seq<char>>
    decreases imports.len(),
{
    if imports.len() == 0 {
        None
    } else if imports.last().alias == alias {
        Some(imports.last().path)
    } else {
        find_import(imports.drop_last(), alias)
    }
}

/// The items that a call puts in its place.
///
/// The call stands in `module`, where the first `limit` procedures can be called; it names
/// the procedure `name` of this module, or of the module imported as `target`. `lookup`
/// says which module the provider has for an identifier, and `depth` how far calls of
/// imported procedures can still nest.
pub open spec fn callee_spec(
    lookup: spec_fn(Seq<u8>) -> Option<NamedModuleSpec>,
    module: ModuleSpec,
    limit: nat,
    target: Option<Seq<char>>,
    name: Seq<char>,
    depth: nat,
) -> Result<Seq<ItemSpec>, ErrorSpec>
    decreases depth, limit, 0nat, 0nat,
{
    match target {
        None => match find_proc(module.local_procs.take(limit as int), name) {
            None => Err(ErrorSpec::UndefinedProcedure { name }),
            Some(index) => if 0 <= index < limit && index < module.local_procs.len() {
                let callee = module.local_procs[index];
                match build_spec(
                    lookup,
                    module,
                    index as nat,
                    callee.body,
                    callee.num_locals,
                    depth,
                ) {
                    Err(e) => Err(e),
                    Ok(items) => Ok(framed(callee.num_locals, items)),
                }
            } else {
                Err(ErrorSpec::UndefinedProcedure { name })
            },
        },
        Some(alias) => match find_import(module.imports, alias) {
            None => Err(ErrorSpec::UndefinedImport { alias }),
            Some(path) => match lookup(procedure_id(path, name)) {
                None => Err(ErrorSpec::UndefinedProcedure { name }),
                Some(named) => match find_proc(named.module.local_procs, name) {
                    None => Err(ErrorSpec::UndefinedProcedure { name }),
                    Some(index) => if depth == 0 {
                        Err(ErrorSpec::ImportNestingTooDeep)
                    } else if 0 <= index < named.module.local_procs.len() {
                        let callee = named.module.local_procs[index];
                        match build_spec(
                            lookup,
                            named.module,
                            index as nat,
                            callee.body,
                            callee.num_locals,
                            (depth - 1) as nat,
                        ) {
                            Err(e) => Err(e),
                            Ok(items) => Ok(framed(callee.num_locals, items)),
                        }
                    } else {
                        Err(ErrorSpec::UndefinedProcedure { name })
                    },
                },
            },
        },
    }
}

/// The frames after one more token, or the error that the token causes.
pub open spec fn step_spec(
    lookup: spec_fn(Seq<u8>) -> Option<NamedModuleSpec>,
    module: ModuleSpec,
    limit: nat,
    num_locals: u32,
    depth: nat,
    frames: Seq<FrameSpec>,
    token: Seq<char>,
) -> Result<Seq<FrameSpec>, ErrorSpec>
    decreases depth, limit, 1nat, 0nat,
{
    match decode_spec(token, num_locals) {
        Err(e) => Err(e),
        Ok(instruction) => match instruction {
            InstructionSpec::Ops(ops) => Ok(push_items(frames, ops_items(ops))),
            InstructionSpec::IfTrue => Ok(frames.push(new_frame(FrameKind::Then))),
            InstructionSpec::WhileTrue => Ok(frames.push(new_frame(FrameKind::While))),
            InstructionSpec::Repeat(count) => Ok(frames.push(new_frame(FrameKind::Repeat(count)))),
            InstructionSpec::Else => if frames.last().kind == FrameKind::Then {
                Ok(
                    frames.drop_last().push(
                        FrameSpec {
                            kind: FrameKind::Else,
                            items: Seq::empty(),
                            saved: frames.last().items,
                        },
                    ),
                )
            } else {
                Err(ErrorSpec::DanglingElse(ElseFault::NoIf))
            },
            InstructionSpec::End => close_frame(frames),
            InstructionSpec::Exec { module: target, name } => match callee_spec(
                lookup,
                module,
                limit,
                target,
                name,
                depth,
            ) {
                Err(e) => Err(e),
                Ok(items) => Ok(push_items(frames, items)),
            },
            InstructionSpec::Begin
            | InstructionSpec::Proc { .. }
            | InstructionSpec::Use { .. } => Err(ErrorSpec::UnexpectedBodyTermination { token }),
        },
    }
}

/// The frames after the first `count` tokens of a body, or the first error in them.
pub open spec fn run_spec(
    lookup: spec_fn(Seq<u8>) -> Option<NamedModuleSpec>,
    module: ModuleSpec,
    limit: nat,
    tokens: Seq<Seq<char>>,
    num_locals: u32,
    depth: nat,
    count: nat,
) -> Result<Seq<FrameSpec>, ErrorSpec>
    decreases depth, limit, 2nat, count,
{
    if count == 0 || count > tokens.len() {
        Ok(seq![new_frame(FrameKind::Root)])
    } else {
        match run_spec(lookup, module, limit, tokens, num_locals, depth, (count - 1) as nat) {
            Err(e) => Err(e),
            Ok(frames) => step_spec(
                lookup,
                module,
                limit,
                num_locals,
                depth,
                frames,
                tokens[count - 1],
            ),
        }
    }
}

/// The items of a body, or the first error in it.
///
/// The body holds `tokens` and belongs to a procedure with `num_locals` locals (none for
/// a program body) of `module`, in which it can call the first `limit` procedures.
pub open spec fn build_spec(
    lookup: spec_fn(Seq<u8>) -> Option<NamedModuleSpec>,
    module: ModuleSpec,
    limit: nat,
    tokens: Seq<Seq<char>>,
    num_locals: u32,
    depth: nat,
) -> Result<Seq<ItemSpec>, ErrorSpec>
    decreases depth, limit, 3nat, 0nat,
{
    match run_spec(lookup, module, limit, tokens, num_locals, depth, tokens.len()) {
        Err(e) => Err(e),
        Ok(frames) => finish(frames),
    }
}


/// Whether a result of items agrees with what is expected of it.
pub open spec fn items_agree(
    out: Result<Vec<Item>, AssemblyError>,
    expected: Result<Seq<ItemSpec>, ErrorSpec>,
) -> bool {
    match (out, expected) {
        (Ok(items), Ok(content)) => items_view(items@) == content,
        (Err(error), Err(content)) => error@ == content,
        _ => false,
    }
}

/// What a provider says, as a function from identifiers to modules.
pub open spec fn lookup_of<P: ModuleProvider>(provider: &P) -> spec_fn(Seq<u8>) -> Option<
    NamedModuleSpec,
> {
    |id: Seq<u8>| provider.module_for(id)
}

proof fn lemma_items_view_push(v: Seq<Item>, item: Item)
    ensures
        items_view(v.push(item)) == items_view(v).push(item@),
{
    assert(items_view(v.push(item)) =~= items_view(v).push(item@));
}

proof fn lemma_items_view_add(a: Seq<Item>, b: Seq<Item>)
    ensures
        items_view(a + b) == items_view(a) + items_view(b),
{
    assert(items_view(a + b) =~= items_view(a) + items_view(b));
}

fn append_ops(items: &mut Vec<Item>, ops: &Vec<Operation>)
    ensures
        items_view(final(items)@) == items_view(old(items)@) + ops_items(ops@),
{
    let mut i: usize = 0;
    while i < ops.len()
        invariant
            i <= ops@.len(),
            items_view(items@) == items_view(old(items)@) + ops_items(ops@.take(i as int)),
        decreases ops@.len() - i,
    {
        proof {
            lemma_items_view_push(items@, Item::Op(ops@[i as int]));
        }
        items.push(Item::Op(ops[i]));
        i += 1;
        assert(items_view(items@) =~= items_view(old(items)@) + ops_items(ops@.take(i as int)));
    }
    proof {
        assert(ops@.take(i as int) == ops@);
    }
}

fn duplicate_items(items: &Vec<Item>) -> (out: Vec<Item>)
    ensures
        items_view(out@) == items_view(items@),
{
    let mut out: Vec<Item> = Vec::new();
    let mut i: usize = 0;
    while i < items.len()
        invariant
            i <= items@.len(),
            items_view(out@) =~= items_view(items@).take(i as int),
        decreases items@.len() - i,
    {
        let copy = match &items[i] {
            Item::Op(op) => Item::Op(*op),
            Item::Block(block) => Item::Block(block.duplicate()),
        };
        proof {
            lemma_items_view_push(out@, copy);
        }
        out.push(copy);
        i += 1;
    }
    proof {
        assert(items_view(items@).take(i as int) =~= items_view(items@));
    }
    out
}

fn append_items(items: &mut Vec<Item>, more: Vec<Item>)
    ensures
        items_view(final(items)@) == items_view(old(items)@) + items_view(more@),
{
    let mut more = more;
    proof {
        lemma_items_view_add(items@, more@);
    }
    items.append(&mut more);
}

fn append_repeated(items: &mut Vec<Item>, body: Vec<Item>, count: u32)
    ensures
        items_view(final(items)@) == items_view(old(items)@) + repeat_items(
            items_view(body@),
            count as nat,
        ),
{
    if count == 0 {
        assert(items_view(items@) =~= items_view(old(items)@) + repeat_items(
            items_view(body@),
            0,
        ));
        return ;
    }
    let mut done: u32 = 1;
    assert(repeat_items(items_view(body@), 0) =~= Seq::empty());
    while done < count
        invariant
            1 <= done <= count,
            items_view(items@) == items_view(old(items)@) + repeat_items(
                items_view(body@),
                (done - 1) as nat,
            ),
        decreases count - done,
    {
        let copy = duplicate_items(&body);
        append_items(items, copy);
        assert(items_view(items@) =~= items_view(old(items)@) + repeat_items(
            items_view(body@),
            done as nat,
        ));
        done += 1;
    }
    append_items(items, body);
    assert(items_view(items@) =~= items_view(old(items)@) + repeat_items(
        items_view(body@),
        count as nat,
    ));
}

fn reverse_items(items: Vec<Item>) -> (out: Vec<Item>)
    ensures
        out@ == items@.reverse(),
{
    let mut items = items;
    let ghost all = items@;
    let mut out: Vec<Item> = Vec::new();
    while items.len() > 0
        invariant
            items@.len() <= all.len(),
            items@ == all.take(items@.len() as int),
            out@ =~= all.reverse().take(all.len() - items@.len()),
        decreases items@.len(),
    {
        let item = items.pop().unwrap();
        out.push(item);
    }
    assert(out@ =~= all.reverse());
    out
}

fn join_next(acc: Option<CodeBlock>, block: CodeBlock, Ghost(blocks): Ghost<Seq<Tree>>) -> (out:
    CodeBlock)
    requires
        match acc {
            None => blocks.len() == 0,
            Some(joined) => blocks.len() > 0 && joined@ == join_all(blocks),
        },
    ensures
        out@ == join_all(blocks.push(block@)),
{
    proof {
        assert(blocks.push(block@).drop_last() == blocks);
    }
    match acc {
        None => block,
        Some(joined) => CodeBlock::new_join(joined, block),
    }
}

/// Builds the block of a body from its items.
pub fn assemble_items(items: Vec<Item>) -> (out: CodeBlock)
    requires
        items@.len() > 0,
    ensures
        out@ == assemble(items_view(items@)),
{
    let ghost all = items@;
    let ghost content = items_view(all);
    let mut rest = reverse_items(items);
    let mut acc: Option<CodeBlock> = None;
    let mut ops: Vec<Operation> = Vec::new();
    let ghost mut blocks: Seq<Tree> = Seq::empty();
    assert(content.take(0) =~= Seq::empty());
    while rest.len() > 0
        invariant
            content == items_view(all),
            rest@.len() <= all.len(),
            rest@ == all.reverse().take(rest@.len() as int),
            group_state(content.take(all.len() - rest@.len())) == (blocks, ops@),
            match acc {
                None => blocks.len() == 0,
                Some(joined) => blocks.len() > 0 && joined@ == join_all(blocks),
            },
            rest@.len() < all.len() ==> blocks.len() > 0 || ops@.len() > 0,
        decreases rest@.len(),
    {
        let ghost done = all.len() - rest@.len();
        let item = rest.pop().unwrap();
        proof {
            assert(item == all[done]);
            assert(content.take(done + 1).drop_last() == content.take(done));
            assert(content.take(done + 1).last() == item@);
        }
        match item {
            Item::Op(op) => {
                ops.push(op);
            },
            Item::Block(block) => {
                if ops.len() > 0 {
                    let span = CodeBlock::new_span(ops);
                    ops = Vec::new();
                    let joined = join_next(acc, span, Ghost(blocks));
                    proof {
                        blocks = blocks.push(span@);
                    }
                    acc = Some(joined);
                }
                let joined = join_next(acc, block, Ghost(blocks));
                proof {
                    blocks = blocks.push(block@);
                }
                acc = Some(joined);
            },
        }
    }
    proof {
        assert(content.take(all.len() as int) == content);
    }
    if ops.len() > 0 {
        let span = CodeBlock::new_span(ops);
        join_next(acc, span, Ghost(blocks))
    } else {
        acc.unwrap()
    }
}

/// Builds the block of a branch of a conditional from its items.
pub fn arm_block(items: Vec<Item>) -> (out: CodeBlock)
    ensures
        out@ == arm(items_view(items@)),
{
    if items.len() == 0 {
        let ops = vec![Operation::Noop];
        assert(ops@ =~= seq![Operation::Noop]);
        CodeBlock::new_span(ops)
    } else {
        assemble_items(items)
    }
}


/// An open construct and what has been collected for it.
struct Frame {
    kind: FrameKind,
    items: Vec<Item>,
    saved: Vec<Item>,
}

impl View for Frame {
    type V = FrameSpec;

    closed spec fn view(&self) -> FrameSpec {
        FrameSpec {
            kind: self.kind,
            items: items_view(self.items@),
            saved: items_view(self.saved@),
        }
    }
}

/// The contents of the outer frames.
spec fn outer_view(stack: Seq<Frame>) -> Seq<FrameSpec> {
    Seq::new(stack.len(), |i: int| stack[i]@)
}

/// The content of the innermost frame, given by its parts.
spec fn top_view(kind: FrameKind, items: Seq<Item>, saved: Seq<Item>) -> FrameSpec {
    FrameSpec { kind, items: items_view(items), saved: items_view(saved) }
}

/// The frames that the outer frames in `stack` and the innermost frame, given by its
/// parts, stand for.
spec fn frames_view(stack: Seq<Frame>, kind: FrameKind, items: Seq<Item>, saved: Seq<Item>) -> Seq<
    FrameSpec,
> {
    outer_view(stack).push(top_view(kind, items, saved))
}

proof fn lemma_outer_push(stack: Seq<Frame>, frame: Frame)
    ensures
        outer_view(stack.push(frame)) == outer_view(stack).push(frame@),
{
    assert(outer_view(stack.push(frame)) =~= outer_view(stack).push(frame@));
}

proof fn lemma_outer_pop(stack: Seq<Frame>)
    requires
        stack.len() > 0,
    ensures
        outer_view(stack.drop_last()) == outer_view(stack).drop_last(),
        outer_view(stack).last() == stack.last()@,
{
    assert(outer_view(stack.drop_last()) =~= outer_view(stack).drop_last());
}

proof fn lemma_no_items()
    ensures
        items_view(Seq::<Item>::empty()) == Seq::<ItemSpec>::empty(),
{
    assert(items_view(Seq::<Item>::empty()) =~= Seq::<ItemSpec>::empty());
}

/// Whether the outermost frame, and no other, is the body itself.
pub open spec fn well_stacked(frames: Seq<FrameSpec>) -> bool {
    &&& frames.len() > 0
    &&& frames[0].kind == FrameKind::Root
    &&& forall|i: int| 0 < i < frames.len() ==> (#[trigger] frames[i]).kind != FrameKind::Root
}

fn find_local(module: &ModuleAst, limit: usize, name: &String) -> (out: Option<usize>)
    requires
        limit <= module.local_procs@.len(),
    ensures
        match (out, find_proc(module@.local_procs.take(limit as int), name@)) {
            (Some(index), Some(expected)) => index == expected && index < limit,
            (None, None) => true,
            _ => false,
        },
{
    let ghost procs = module@.local_procs.take(limit as int);
    let mut i: usize = 0;
    while i < limit
        invariant
            i <= limit <= module.local_procs@.len(),
            procs == module@.local_procs.take(limit as int),
            find_proc(procs, name@) == find_proc_from(procs, name@, i as int),
        decreases limit - i,
    {
        assert(procs[i as int] == module.local_procs@[i as int]@);
        if module.local_procs[i].name == *name {
            return Some(i);
        }
        i += 1;
    }
    None
}

fn find_path<'a>(module: &'a ModuleAst, alias: &String) -> (out: Option<&'a String>)
    ensures
        match (out, find_import(module@.imports, alias@)) {
            (Some(path), Some(expected)) => path@ == expected,
            (None, None) => true,
            _ => false,
        },
{
    let ghost imports = module@.imports;
    let mut i: usize = module.imports.len();
    proof {
        assert(imports.take(imports.len() as int) == imports);
    }
    while i > 0
        invariant
            i <= module.imports@.len(),
            imports == module@.imports,
            find_import(imports, alias@) == find_import(imports.take(i as int), alias@),
        decreases i,
    {
        i -= 1;
        proof {
            assert(imports.take(i + 1).last() == module.imports@[i as int]@);
            assert(imports.take(i + 1).drop_last() == imports.take(i as int));
        }
        if module.imports[i].alias == *alias {
            return Some(&module.imports[i].path);
        }
    }
    proof {
        assert(imports.take(0) =~= Seq::empty());
    }
    None
}

fn add_frame(items: Vec<Item>, num_locals: u32) -> (out: Vec<Item>)
    ensures
        items_view(out@) == framed(num_locals, items_view(items@)),
{
    if num_locals == 0 {
        return items;
    }
    let mut out: Vec<Item> = Vec::new();
    out.push(Item::Op(Operation::Push(num_locals as u64)));
    out.push(Item::Op(Operation::FmpUpdate));
    assert(items_view(out@) =~= prologue(num_locals));
    append_items(&mut out, items);
    let ghost before = out@;
    out.push(Item::Op(Operation::Push(MODULUS - num_locals as u64)));
    out.push(Item::Op(Operation::FmpUpdate));
    assert(items_view(out@) =~= items_view(before) + epilogue(num_locals));
    out
}

/// Builds the items that a call puts in its place.
fn inline_call<P: ModuleProvider>(
    provider: &P,
    module: &ModuleAst,
    limit: usize,
    target: &Option<String>,
    name: &String,
    depth: u32,
) -> (out: Result<Vec<Item>, AssemblyError>)
    requires
        limit <= module.local_procs@.len(),
    ensures
        items_agree(
            out,
            callee_spec(
                lookup_of(provider),
                module@,
                limit as nat,
                match *target {
                    Some(alias) => Some(alias@),
                    None => None,
                },
                name@,
                depth as nat,
            ),
        ),
    decreases depth, limit, 0nat,
{
    let ghost lookup = lookup_of(provider);
    match target {
        None => match find_local(module, limit, name) {
            None => {
                return Err(AssemblyError::UndefinedProcedure { name: name.clone() });
            },
            Some(index) => {
                let callee = &module.local_procs[index];
                assert(module@.local_procs[index as int] == callee@);
                match build_items(
                    provider,
                    module,
                    index,
                    &callee.body,
                    callee.num_locals,
                    depth,
                ) {
                    Err(e) => {
                        return Err(e);
                    },
                    Ok(items) => {
                        return Ok(add_frame(items, callee.num_locals));
                    },
                }
            },
        },
        Some(alias) => match find_path(module, alias) {
            None => {
                return Err(AssemblyError::UndefinedImport { alias: alias.clone() });
            },
            Some(path) => {
                let id = ProcedureId::from_name(name.as_str(), path.as_str());
                assert(lookup(id@) == provider.module_for(id@));
                match provider.get_module(&id) {
                    None => {
                        return Err(AssemblyError::UndefinedProcedure { name: name.clone() });
                    },
                    Some(named) => {
                        let imported = named.module();
                        assert(imported@.local_procs.take(imported.local_procs@.len() as int)
                            == imported@.local_procs);
                        match find_local(imported, imported.local_procs.len(), name) {
                            None => {
                                return Err(
                                    AssemblyError::UndefinedProcedure { name: name.clone() },
                                );
                            },
                            Some(index) => {
                                if depth == 0 {
                                    return Err(AssemblyError::ImportNestingTooDeep);
                                }
                                let callee = &imported.local_procs[index];
                                assert(imported@.local_procs[index as int] == callee@);
                                match build_items(
                                    provider,
                                    imported,
                                    index,
                                    &callee.body,
                                    callee.num_locals,
                                    depth - 1,
                                ) {
                                    Err(e) => {
                                        return Err(e);
                                    },
                                    Ok(items) => {
                                        return Ok(add_frame(items, callee.num_locals));
                                    },
                                }
                            },
                        }
                    },
                }
            },
        },
    }
}

fn unfinished_error(kind: FrameKind) -> (out: AssemblyError)
    ensures
        forall|frames: Seq<FrameSpec>|
            frames.len() > 0 && frames.last().kind == kind ==> out@ == #[trigger] unfinished(frames),
{
    match kind {
        FrameKind::Root => AssemblyError::EmptyCodeBlock,
        FrameKind::Then => AssemblyError::MissingEndFor(BlockKind::If),
        FrameKind::Else => AssemblyError::DanglingElse(ElseFault::NoEnd),
        FrameKind::While => AssemblyError::MissingEndFor(BlockKind::While),
        FrameKind::Repeat(_) => AssemblyError::MissingEndFor(BlockKind::Repeat),
    }
}

/// Builds the items of a body.
///
/// The body holds `tokens` and belongs to a procedure with `num_locals` locals (none for
/// a program body) of `module`, in which it can call the first `limit` procedures. Calls
/// of imported procedures are resolved by `provider` and can nest `depth` deep.
pub fn build_items<P: ModuleProvider>(
    provider: &P,
    module: &ModuleAst,
    limit: usize,
    tokens: &Vec<String>,
    num_locals: u32,
    depth: u32,
) -> (out: Result<Vec<Item>, AssemblyError>)
    requires
        limit <= module.local_procs@.len(),
    ensures
        items_agree(
            out,
            build_spec(
                lookup_of(provider),
                module@,
                limit as nat,
                strs(tokens@),
                num_locals,
                depth as nat,
            ),
        ),
    decreases depth, limit, 1nat,
{
    let ghost lookup = lookup_of(provider);
    let ghost texts = strs(tokens@);
    let mut stack: Vec<Frame> = Vec::new();
    let mut kind = FrameKind::Root;
    let mut items: Vec<Item> = Vec::new();
    let mut saved: Vec<Item> = Vec::new();
    proof {
        lemma_no_items();
        assert(outer_view(stack@) =~= Seq::empty());
        assert(frames_view(stack@, kind, items@, saved@) =~= seq![new_frame(FrameKind::Root)]);
    }
    let mut i: usize = 0;
    while i < tokens.len()
        invariant
            i <= tokens@.len(),
            limit <= module.local_procs@.len(),
            lookup == lookup_of(provider),
            texts == strs(tokens@),
            well_stacked(frames_view(stack@, kind, items@, saved@)),
            run_spec(lookup, module@, limit as nat, texts, num_locals, depth as nat, i as nat)
                == Ok::<Seq<FrameSpec>, ErrorSpec>(frames_view(stack@, kind, items@, saved@)),
        decreases tokens@.len() - i,
    {
        let ghost frames = frames_view(stack@, kind, items@, saved@);
        let ghost next = step_spec(
            lookup,
            module@,
            limit as nat,
            num_locals,
            depth as nat,
            frames,
            texts[i as int],
        );
        proof {
            assert(texts[i as int] == tokens@[i as int]@);
            assert(run_spec(
                lookup,
                module@,
                limit as nat,
                texts,
                num_locals,
                depth as nat,
                (i + 1) as nat,
            ) == next);
            // The body ends with the frames after its last token, so an error here is
            // the error of the whole body.
            lemma_run_error(
                lookup,
                module@,
                limit as nat,
                texts,
                num_locals,
                depth as nat,
                (i + 1) as nat,
            );
        }
        match decode(&tokens[i], num_locals) {
            Err(e) => {
                return Err(e);
            },
            Ok(instruction) => match instruction {
                Instruction::Ops(ops) => {
                    append_ops(&mut items, &ops);
                    assert(frames_view(stack@, kind, items@, saved@) =~= push_items(
                        frames,
                        ops_items(ops@),
                    ));
                },
                Instruction::IfTrue => {
                    let opened = Frame { kind, items, saved };
                    proof {
                        lemma_outer_push(stack@, opened);
                        lemma_no_items();
                    }
                    stack.push(opened);
                    kind = FrameKind::Then;
                    items = Vec::new();
                    saved = Vec::new();
                    assert(frames_view(stack@, kind, items@, saved@) == frames.push(
                        new_frame(FrameKind::Then),
                    ));
                },
                Instruction::WhileTrue => {
                    let opened = Frame { kind, items, saved };
                    proof {
                        lemma_outer_push(stack@, opened);
                        lemma_no_items();
                    }
                    stack.push(opened);
                    kind = FrameKind::While;
                    items = Vec::new();
                    saved = Vec::new();
                    assert(frames_view(stack@, kind, items@, saved@) == frames.push(
                        new_frame(FrameKind::While),
                    ));
                },
                Instruction::Repeat(count) => {
                    let opened = Frame { kind, items, saved };
                    proof {
                        lemma_outer_push(stack@, opened);
                        lemma_no_items();
                    }
                    stack.push(opened);
                    kind = FrameKind::Repeat(count);
                    items = Vec::new();
                    saved = Vec::new();
                    assert(frames_view(stack@, kind, items@, saved@) == frames.push(
                        new_frame(FrameKind::Repeat(count)),
                    ));
                },
                Instruction::Else => {
                    if kind != FrameKind::Then {
                        return Err(AssemblyError::DanglingElse(ElseFault::NoIf));
                    }
                    kind = FrameKind::Else;
                    saved = items;
                    items = Vec::new();
                    proof {
                        lemma_no_items();
                        assert(frames.drop_last() == outer_view(stack@));
                    }
                    assert(frames_view(stack@, kind, items@, saved@) == frames.drop_last().push(
                        FrameSpec {
                            kind: FrameKind::Else,
                            items: Seq::empty(),
                            saved: frames.last().items,
                        },
                    ));
                },
                Instruction::End => {
                    let closed_kind = kind;
                    let closed_items = items;
                    let closed_saved = saved;
                    match closed_kind {
                        FrameKind::Root => {
                            return Err(AssemblyError::DanglingEnd);
                        },
                        FrameKind::While | FrameKind::Repeat(_) => {
                            if closed_items.len() == 0 {
                                return Err(AssemblyError::EmptyCodeBlock);
                            }
                        },
                        _ => {},
                    }
                    assert(stack@.len() > 0) by {
                        if stack@.len() == 0 {
                            assert(frames[0].kind == closed_kind);
                        }
                    }
                    let ghost rest = frames.drop_last();
                    proof {
                        lemma_outer_pop(stack@);
                        assert(rest == outer_view(stack@));
                    }
                    let parent = stack.pop().unwrap();
                    let Frame { kind: parent_kind, items: parent_items, saved: parent_saved } =
                        parent;
                    kind = parent_kind;
                    items = parent_items;
                    saved = parent_saved;
                    assert(frames_view(stack@, kind, items@, saved@) =~= rest);
                    match closed_kind {
                        FrameKind::Then => {
                            let on_true = arm_block(closed_items);
                            let on_false = arm_block(Vec::new());
                            let block = Item::Block(CodeBlock::new_split(on_true, on_false));
                            proof {
                                lemma_items_view_push(items@, block);
                                lemma_no_items();
                            }
                            items.push(block);
                            assert(items_view(items@) =~= rest.last().items + seq![block@]);
                            assert(frames_view(stack@, kind, items@, saved@) =~= push_items(
                                rest,
                                seq![block@],
                            ));
                        },
                        FrameKind::Else => {
                            let on_true = arm_block(closed_saved);
                            let on_false = arm_block(closed_items);
                            let block = Item::Block(CodeBlock::new_split(on_true, on_false));
                            proof {
                                lemma_items_view_push(items@, block);
                            }
                            items.push(block);
                            assert(items_view(items@) =~= rest.last().items + seq![block@]);
                            assert(frames_view(stack@, kind, items@, saved@) =~= push_items(
                                rest,
                                seq![block@],
                            ));
                        },
                        FrameKind::While => {
                            let body = assemble_items(closed_items);
                            let block = Item::Block(CodeBlock::new_loop(body));
                            proof {
                                lemma_items_view_push(items@, block);
                            }
                            items.push(block);
                            assert(items_view(items@) =~= rest.last().items + seq![block@]);
                            assert(frames_view(stack@, kind, items@, saved@) =~= push_items(
                                rest,
                                seq![block@],
                            ));
                        },
                        FrameKind::Repeat(count) => {
                            let ghost body = items_view(closed_items@);
                            append_repeated(&mut items, closed_items, count);
                            assert(frames_view(stack@, kind, items@, saved@) =~= push_items(
                                rest,
                                repeat_items(body, count as nat),
                            ));
                        },
                        FrameKind::Root => {},
                    }
                },
                Instruction::Exec { module: target, name } => {
                    match inline_call(provider, module, limit, &target, &name, depth) {
                        Err(e) => {
                            return Err(e);
                        },
                        Ok(more) => {
                            let ghost added = items_view(more@);
                            append_items(&mut items, more);
                            assert(frames_view(stack@, kind, items@, saved@) =~= push_items(
                                frames,
                                added,
                            ));
                        },
                    }
                },
                Instruction::Begin | Instruction::Proc { .. } | Instruction::Use { .. } => {
                    return Err(
                        AssemblyError::UnexpectedBodyTermination { token: tokens[i].clone() },
                    );
                },
            },
        }
        i += 1;
    }
    if stack.len() == 0 && items.len() > 0 {
        Ok(items)
    } else {
        Err(unfinished_error(kind))
    }
}

/// An error in a prefix of a body is the error of every longer prefix.
proof fn lemma_run_error(
    lookup: spec_fn(Seq<u8>) -> Option<NamedModuleSpec>,
    module: ModuleSpec,
    limit: nat,
    tokens: Seq<Seq<char>>,
    num_locals: u32,
    depth: nat,
    count: nat,
)
    requires
        count <= tokens.len(),
    ensures
        run_spec(lookup, module, limit, tokens, num_locals, depth, count) is Err ==> run_spec(
            lookup,
            module,
            limit,
            tokens,
            num_locals,
            depth,
            tokens.len(),
        ) == run_spec(lookup, module, limit, tokens, num_locals, depth, count),
    decreases tokens.len() - count,
{
    if count < tokens.len() {
        lemma_run_error(lookup, module, limit, tokens, num_locals, depth, count + 1);
    }
}

} // verus!
