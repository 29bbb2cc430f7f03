//! Laws of assembly: what holds of every source text.

use crate::assembler::{compile_spec, Program};
use crate::blocks::{tree_digest, Tree};
use crate::builder::join_all;
use crate::errors::{agrees, AssemblyError, ErrorSpec};
use crate::procedures::NamedModuleSpec;
use crate::tokens::{lemma_comments_invisible, strip_comments_spec};
use vstd::prelude::*;

verus! {

/// Compilation is deterministic: two results of compiling the same source text with the
/// same provider are the same program, or the same error.
pub proof fn lemma_compile_deterministic(
    lookup: spec_fn(Seq<u8>) -> Option<NamedModuleSpec>,
    source: Seq<char>,
    first: Result<Program, AssemblyError>,
    second: Result<Program, AssemblyError>,
)
    requires
        agrees(first, compile_spec(lookup, source)),
        agrees(second, compile_spec(lookup, source)),
    ensures
        match (first, second) {
            (Ok(one), Ok(other)) => one@ == other@,
            (Err(one), Err(other)) => one@ == other@,
            _ => false,
        },
{
}

/// Digests are stable: two programs compiled from the same source text with the same
/// provider have the same digest.
pub proof fn lemma_digest_stable(
    lookup: spec_fn(Seq<u8>) -> Option<NamedModuleSpec>,
    source: Seq<char>,
    first: Program,
    second: Program,
)
    requires
        compile_spec(lookup, source) == Ok::<Tree, ErrorSpec>(first@),
        compile_spec(lookup, source) == Ok::<Tree, ErrorSpec>(second@),
    ensures
        tree_digest(first@) == tree_digest(second@),
{
}

/// Joins lean to the left: of three or more blocks in a row, the last is the second child
/// of the root, the one before it is the second child of the root's first child, and the
/// blocks before these are joined below that.
pub proof fn lemma_join_leans_left(blocks: Seq<Tree>)
    requires
        blocks.len() >= 3,
    ensures
        join_all(blocks) == Tree::Join(
            Box::new(
                Tree::Join(
                    Box::new(join_all(blocks.take(blocks.len() - 2))),
                    Box::new(blocks[blocks.len() - 2]),
                ),
            ),
            Box::new(blocks[blocks.len() - 1]),
        ),
{
    let front = blocks.drop_last();
    assert(front.drop_last() == blocks.take(blocks.len() - 2));
    assert(front.last() == blocks[blocks.len() - 2]);
    assert(join_all(front) == Tree::Join(
        Box::new(join_all(front.drop_last())),
        Box::new(front.last()),
    ));
}

/// Three blocks in a row are joined as `join(join(a, b), c)`.
pub proof fn lemma_join_three(a: Tree, b: Tree, c: Tree)
    ensures
        join_all(seq![a, b, c]) == Tree::Join(
            Box::new(Tree::Join(Box::new(a), Box::new(b))),
            Box::new(c),
        ),
{
    let blocks = seq![a, b, c];
    lemma_join_leans_left(blocks);
    assert(blocks.take(1) == seq![a]);
    assert(join_all(seq![a]) == a);
}

/// Comments are invisible: a source text and the same text without its comments compile
/// to the same program, or fail with the same error.
pub proof fn lemma_comments_do_not_matter(
    lookup: spec_fn(Seq<u8>) -> Option<NamedModuleSpec>,
    source: Seq<char>,
)
    ensures
        compile_spec(lookup, strip_comments_spec(source)) == compile_spec(lookup, source),
{
    lemma_comments_invisible(source);
}

} // verus!
