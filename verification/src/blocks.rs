//! Code blocks: the nodes of a program tree.
//!
//! A block is a span of operations, a join of two blocks executed one after the other, a
//! split into two alternatives, or a loop around a body. Every block carries the digest of
//! its contents, computed when the block is built.

use crate::hasher::{
    hash_elements, merge_in_domain, rpo_hash_elements, rpo_merge_in_domain, zero_digest, Digest,
};
use crate::operation::Operation;
use crate::text::{push_lit, string_of};
use vstd::prelude::*;

verus! {

/// The shape of a block: what it holds, without the digests.
pub enum Tree {
    /// A straight-line run of operations.
    Span(Seq<Operation>),
    /// Two blocks executed one after the other.
    Join(Box<Tree>, Box<Tree>),
    /// Two alternatives: the first is executed if the top of the stack is 1, the second if
    /// it is 0.
    Split(Box<Tree>, Box<Tree>),
    /// A body executed as long as the top of the stack is 1.
    Loop(Box<Tree>),
}

/// The field elements that stand for one operation when a span is hashed: its opcode,
/// followed by the value it carries, if it carries one.
pub open spec fn op_elements(op: Operation) -> Seq<u64> {
    match op.imm_value_spec() {
        Some(v) => seq![op.op_code_spec() as u64, v],
        None => seq![op.op_code_spec() as u64],
    }
}

/// The field elements that stand for a run of operations when a span is hashed.
pub open spec fn span_elements(ops: Seq<Operation>) -> Seq<u64>
    decreases ops.len(),
{
    if ops.len() == 0 {
        Seq::empty()
    } else {
        span_elements(ops.drop_last()) + op_elements(ops.last())
    }
}

/// The domain of join blocks: the opcode of the operation that starts one.
pub open spec fn join_domain() -> u64 {
    Operation::Join.op_code_spec() as u64
}

/// The domain of split blocks: the opcode of the operation that starts one.
pub open spec fn split_domain() -> u64 {
    Operation::Split.op_code_spec() as u64
}

/// The domain of loop blocks: the opcode of the operation that starts one.
pub open spec fn loop_domain() -> u64 {
    Operation::Loop.op_code_spec() as u64
}

/// The digest of a block of the given shape.
///
/// A span is hashed from the elements of its operations. A join and a split merge the
/// digests of their two children, and a loop merges the digest of its body with the zero
/// digest, each in the domain of its kind.
pub open spec fn tree_digest(t: Tree) -> Seq<u64>
    decreases t,
{
    match t {
        Tree::Span(ops) => rpo_hash_elements(span_elements(ops)),
        Tree::Join(first, second) => rpo_merge_in_domain(
            tree_digest(*first),
            tree_digest(*second),
            join_domain(),
        ),
        Tree::Split(on_true, on_false) => rpo_merge_in_domain(
            tree_digest(*on_true),
            tree_digest(*on_false),
            split_domain(),
        ),
        Tree::Loop(body) => rpo_merge_in_domain(tree_digest(*body), zero_digest(), loop_domain()),
    }
}

/// Whether every span in the tree holds at least one operation.
pub open spec fn well_formed(t: Tree) -> bool
    decreases t,
{
    match t {
        Tree::Span(ops) => ops.len() > 0,
        Tree::Join(first, second) => well_formed(*first) && well_formed(*second),
        Tree::Split(on_true, on_false) => well_formed(*on_true) && well_formed(*on_false),
        Tree::Loop(body) => well_formed(*body),
    }
}

/// The text of a run of operations, each preceded by a blank.
pub open spec fn ops_text(ops: Seq<Operation>) -> Seq<char>
    decreases ops.len(),
{
    if ops.len() == 0 {
        Seq::empty()
    } else {
        ops_text(ops.drop_last()) + " "@ + ops.last().text_spec()
    }
}

/// The text of a block of the given shape.
pub open spec fn tree_text(t: Tree) -> Seq<char>
    decreases t,
{
    match t {
        Tree::Span(ops) => "span"@ + ops_text(ops) + " end"@,
        Tree::Join(first, second) => "join "@ + tree_text(*first) + " "@ + tree_text(*second)
            + " end"@,
        Tree::Split(on_true, on_false) => "if.true "@ + tree_text(*on_true) + " else "@
            + tree_text(*on_false) + " end"@,
        Tree::Loop(body) => "while.true "@ + tree_text(*body) + " end"@,
    }
}

/// A block that holds a straight-line run of operations.
#[derive(Debug)]
pub struct Span {
    ops: Vec<Operation>,
    hash: Digest,
}

/// A block that combines two blocks, which are executed one after the other.
#[derive(Debug)]
pub struct Join {
    first: Box<CodeBlock>,
    second: Box<CodeBlock>,
    hash: Digest,
}

/// A block that chooses between two blocks by the top of the stack.
#[derive(Debug)]
pub struct Split {
    on_true: Box<CodeBlock>,
    on_false: Box<CodeBlock>,
    hash: Digest,
}

/// A block that repeats its body as long as the top of the stack is 1.
#[derive(Debug)]
pub struct Loop {
    body: Box<CodeBlock>,
    hash: Digest,
}

/// A node of a program tree.
#[derive(Debug)]
pub enum CodeBlock {
    Span(Span),
    Join(Join),
    Split(Split),
    Loop(Loop),
}

/// The shape of a block.
pub closed spec fn shape(block: CodeBlock) -> Tree
    decreases block,
{
    match block {
        CodeBlock::Span(b) => Tree::Span(b.ops@),
        CodeBlock::Join(b) => Tree::Join(Box::new(shape(*b.first)), Box::new(shape(*b.second))),
        CodeBlock::Split(b) => Tree::Split(
            Box::new(shape(*b.on_true)),
            Box::new(shape(*b.on_false)),
        ),
        CodeBlock::Loop(b) => Tree::Loop(Box::new(shape(*b.body))),
    }
}

impl View for CodeBlock {
    type V = Tree;

    open spec fn view(&self) -> Tree {
        shape(*self)
    }
}

impl View for Span {
    type V = Tree;

    closed spec fn view(&self) -> Tree {
        Tree::Span(self.ops@)
    }
}

impl View for Join {
    type V = Tree;

    closed spec fn view(&self) -> Tree {
        Tree::Join(Box::new(shape(*self.first)), Box::new(shape(*self.second)))
    }
}

impl View for Split {
    type V = Tree;

    closed spec fn view(&self) -> Tree {
        Tree::Split(Box::new(shape(*self.on_true)), Box::new(shape(*self.on_false)))
    }
}

impl View for Loop {
    type V = Tree;

    closed spec fn view(&self) -> Tree {
        Tree::Loop(Box::new(shape(*self.body)))
    }
}

fn elements_of(ops: &Vec<Operation>) -> (out: Vec<u64>)
    ensures
        out@ == span_elements(ops@),
{
    let mut out: Vec<u64> = Vec::new();
    let mut i: usize = 0;
    while i < ops.len()
        invariant
            i <= ops@.len(),
            out@ == span_elements(ops@.take(i as int)),
        decreases ops@.len() - i,
    {
        let op = ops[i];
        proof {
            assert(ops@.take(i + 1).drop_last() == ops@.take(i as int));
        }
        out.push(op.op_code() as u64);
        match op.imm_value() {
            Some(v) => {
                out.push(v);
            },
            None => {},
        }
        i += 1;
        assert(out@ =~= span_elements(ops@.take(i as int)));
    }
    proof {
        assert(ops@.take(i as int) == ops@);
    }
    out
}

fn copy_ops(ops: &Vec<Operation>) -> (out: Vec<Operation>)
    ensures
        out@ == ops@,
{
    let mut out: Vec<Operation> = Vec::new();
    let mut i: usize = 0;
    while i < ops.len()
        invariant
            i <= ops@.len(),
            out@ == ops@.take(i as int),
        decreases ops@.len() - i,
    {
        out.push(ops[i]);
        i += 1;
        assert(out@ =~= ops@.take(i as int));
    }
    proof {
        assert(ops@.take(i as int) == ops@);
    }
    out
}

impl Span {
    #[verifier::type_invariant]
    spec fn inv(&self) -> bool {
        &&& self.ops@.len() > 0
        &&& self.hash@ == rpo_hash_elements(span_elements(self.ops@))
    }

    /// Returns a span that holds the given operations.
    pub fn new(ops: Vec<Operation>) -> (out: Span)
        requires
            ops@.len() > 0,
        ensures
            out@ == Tree::Span(ops@),
    {
        let elements = elements_of(&ops);
        let hash = hash_elements(&elements);
        Span { ops, hash }
    }

    /// Returns the digest of this block.
    pub fn hash(&self) -> (out: Digest)
        ensures
            out@ == tree_digest(self@),
            well_formed(self@),
    {
        proof {
            use_type_invariant(self);
        }
        self.hash
    }

    /// Returns the operations of this span.
    pub fn ops(&self) -> (out: &Vec<Operation>)
        ensures
            self@ == Tree::Span(out@),
            out@.len() > 0,
    {
        proof {
            use_type_invariant(self);
        }
        &self.ops
    }
}

impl Join {
    #[verifier::type_invariant]
    spec fn inv(&self) -> bool {
        &&& self.hash@ == tree_digest(self@)
        &&& well_formed(self@)
    }

    /// Returns a join of the two blocks: `first` is executed first, `second` after it.
    pub fn new(first: CodeBlock, second: CodeBlock) -> (out: Join)
        ensures
            out@ == Tree::Join(Box::new(first@), Box::new(second@)),
    {
        let hash = merge_in_domain(&first.hash(), &second.hash(), Self::domain());
        Join { first: Box::new(first), second: Box::new(second), hash }
    }

    /// Returns the digest of this block.
    pub fn hash(&self) -> (out: Digest)
        ensures
            out@ == tree_digest(self@),
            well_formed(self@),
    {
        proof {
            use_type_invariant(self);
        }
        self.hash
    }

    /// Returns the block that is executed first.
    pub fn first(&self) -> (out: &CodeBlock)
        ensures
            self@ matches Tree::Join(first, _) && *first == out@,
    {
        &self.first
    }

    /// Returns the block that is executed second.
    pub fn second(&self) -> (out: &CodeBlock)
        ensures
            self@ matches Tree::Join(_, second) && *second == out@,
    {
        &self.second
    }

    /// Returns the domain of join blocks.
    pub fn domain() -> (out: u64)
        ensures
            out == join_domain(),
    {
        Operation::Join.op_code() as u64
    }
}

impl Split {
    #[verifier::type_invariant]
    spec fn inv(&self) -> bool {
        &&& self.hash@ == tree_digest(self@)
        &&& well_formed(self@)
    }

    /// Returns a split: `on_true` is executed if the top of the stack is 1, `on_false` if
    /// it is 0.
    pub fn new(on_true: CodeBlock, on_false: CodeBlock) -> (out: Split)
        ensures
            out@ == Tree::Split(Box::new(on_true@), Box::new(on_false@)),
    {
        let hash = merge_in_domain(&on_true.hash(), &on_false.hash(), Self::domain());
        Split { on_true: Box::new(on_true), on_false: Box::new(on_false), hash }
    }

    /// Returns the digest of this block.
    pub fn hash(&self) -> (out: Digest)
        ensures
            out@ == tree_digest(self@),
            well_formed(self@),
    {
        proof {
            use_type_invariant(self);
        }
        self.hash
    }

    /// Returns the block that is executed if the top of the stack is 1.
    pub fn on_true(&self) -> (out: &CodeBlock)
        ensures
            self@ matches Tree::Split(on_true, _) && *on_true == out@,
    {
        &self.on_true
    }

    /// Returns the block that is executed if the top of the stack is 0.
    pub fn on_false(&self) -> (out: &CodeBlock)
        ensures
            self@ matches Tree::Split(_, on_false) && *on_false == out@,
    {
        &self.on_false
    }

    /// Returns the domain of split blocks.
    pub fn domain() -> (out: u64)
        ensures
            out == split_domain(),
    {
        Operation::Split.op_code() as u64
    }
}

impl Loop {
    #[verifier::type_invariant]
    spec fn inv(&self) -> bool {
        &&& self.hash@ == tree_digest(self@)
        &&& well_formed(self@)
    }

    /// Returns a loop around `body`.
    pub fn new(body: CodeBlock) -> (out: Loop)
        ensures
            out@ == Tree::Loop(Box::new(body@)),
    {
        let hash = merge_in_domain(&body.hash(), &Digest::zero(), Self::domain());
        Loop { body: Box::new(body), hash }
    }

    /// Returns the digest of this block.
    pub fn hash(&self) -> (out: Digest)
        ensures
            out@ == tree_digest(self@),
            well_formed(self@),
    {
        proof {
            use_type_invariant(self);
        }
        self.hash
    }

    /// Returns the body of the loop.
    pub fn body(&self) -> (out: &CodeBlock)
        ensures
            self@ matches Tree::Loop(body) && *body == out@,
    {
        &self.body
    }

    /// Returns the domain of loop blocks.
    pub fn domain() -> (out: u64)
        ensures
            out == loop_domain(),
    {
        Operation::Loop.op_code() as u64
    }
}

impl CodeBlock {
    /// Returns a span block that holds the given operations.
    pub fn new_span(ops: Vec<Operation>) -> (out: CodeBlock)
        requires
            ops@.len() > 0,
        ensures
            out@ == Tree::Span(ops@),
    {
        CodeBlock::Span(Span::new(ops))
    }

    /// Returns a join block of the two blocks.
    pub fn new_join(first: CodeBlock, second: CodeBlock) -> (out: CodeBlock)
        ensures
            out@ == Tree::Join(Box::new(first@), Box::new(second@)),
    {
        CodeBlock::Join(Join::new(first, second))
    }

    /// Returns a split block of the two alternatives.
    pub fn new_split(on_true: CodeBlock, on_false: CodeBlock) -> (out: CodeBlock)
        ensures
            out@ == Tree::Split(Box::new(on_true@), Box::new(on_false@)),
    {
        CodeBlock::Split(Split::new(on_true, on_false))
    }

    /// Returns a loop block around `body`.
    pub fn new_loop(body: CodeBlock) -> (out: CodeBlock)
        ensures
            out@ == Tree::Loop(Box::new(body@)),
    {
        CodeBlock::Loop(Loop::new(body))
    }

    /// Returns the digest of this block. It is the digest of the block's shape, and every
    /// span of the block holds at least one operation.
    pub fn hash(&self) -> (out: Digest)
        ensures
            out@ == tree_digest(self@),
            well_formed(self@),
    {
        match self {
            CodeBlock::Span(b) => b.hash(),
            CodeBlock::Join(b) => b.hash(),
            CodeBlock::Split(b) => b.hash(),
            CodeBlock::Loop(b) => b.hash(),
        }
    }

    /// Returns an independent copy of this block.
    pub fn duplicate(&self) -> (out: CodeBlock)
        ensures
            out@ == self@,
        decreases self,
    {
        match self {
            CodeBlock::Span(b) => {
                proof {
                    use_type_invariant(b);
                }
                CodeBlock::Span(Span { ops: copy_ops(&b.ops), hash: b.hash })
            },
            CodeBlock::Join(b) => {
                proof {
                    use_type_invariant(b);
                }
                let first = b.first.duplicate();
                let second = b.second.duplicate();
                CodeBlock::Join(Join { first: Box::new(first), second: Box::new(second), hash: b.hash })
            },
            CodeBlock::Split(b) => {
                proof {
                    use_type_invariant(b);
                }
                let on_true = b.on_true.duplicate();
                let on_false = b.on_false.duplicate();
                CodeBlock::Split(
                    Split { on_true: Box::new(on_true), on_false: Box::new(on_false), hash: b.hash },
                )
            },
            CodeBlock::Loop(b) => {
                proof {
                    use_type_invariant(b);
                }
                let body = b.body.duplicate();
                CodeBlock::Loop(Loop { body: Box::new(body), hash: b.hash })
            },
        }
    }

    /// Appends the text of this block to `buf`.
    pub fn write_text(&self, buf: &mut Vec<char>)
        ensures
            final(buf)@ == old(buf)@ + tree_text(self@),
        decreases self,
    {
        match self {
            CodeBlock::Span(b) => {
                push_lit(buf, "span");
                let mut i: usize = 0;
                while i < b.ops.len()
                    invariant
                        i <= b.ops@.len(),
                        buf@ == old(buf)@ + "span"@ + ops_text(b.ops@.take(i as int)),
                    decreases b.ops@.len() - i,
                {
                    proof {
                        assert(b.ops@.take(i + 1).drop_last() == b.ops@.take(i as int));
                    }
                    push_lit(buf, " ");
                    b.ops[i].write_text(buf);
                    i += 1;
                    assert(buf@ =~= old(buf)@ + "span"@ + ops_text(b.ops@.take(i as int)));
                }
                proof {
                    assert(b.ops@.take(i as int) == b.ops@);
                }
                push_lit(buf, " end");
                assert(buf@ =~= old(buf)@ + tree_text(self@));
            },
            CodeBlock::Join(b) => {
                push_lit(buf, "join ");
                b.first.write_text(buf);
                push_lit(buf, " ");
                b.second.write_text(buf);
                push_lit(buf, " end");
                assert(buf@ =~= old(buf)@ + tree_text(self@));
            },
            CodeBlock::Split(b) => {
                push_lit(buf, "if.true ");
                b.on_true.write_text(buf);
                push_lit(buf, " else ");
                b.on_false.write_text(buf);
                push_lit(buf, " end");
                assert(buf@ =~= old(buf)@ + tree_text(self@));
            },
            CodeBlock::Loop(b) => {
                push_lit(buf, "while.true ");
                b.body.write_text(buf);
                push_lit(buf, " end");
                assert(buf@ =~= old(buf)@ + tree_text(self@));
            },
        }
    }

    /// Returns the text of this block.
    pub fn to_string(&self) -> (out: String)
        ensures
            out@ == tree_text(self@),
    {
        let mut buf: Vec<char> = Vec::new();
        self.write_text(&mut buf);
        assert(buf@ =~= tree_text(self@));
        string_of(&buf)
    }
}

} // verus!
