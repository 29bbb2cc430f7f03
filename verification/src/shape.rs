//! The shape of compiled programs: every span holds at least one operation.

use crate::assembler::{compile_spec, compile_tokens};
use crate::blocks::{well_formed, Tree};
use crate::builder::{
    arm, assemble, blocks_of, build_spec, callee_spec, find_import, find_proc, framed,
    group_state, join_all, noop_span, ops_items, push_items, repeat_items, run_spec, step_spec,
    well_stacked, FrameKind, FrameSpec, ItemSpec, MAX_IMPORT_DEPTH,
};
use crate::instruction::{decode_spec, InstructionSpec};
use crate::parser::{parse_tokens, ModuleSpec};
use crate::procedures::{procedure_id, NamedModuleSpec};
use crate::tokens::tokens_of;
use vstd::prelude::*;

verus! {

/// Whether every block is well formed.
pub open spec fn blocks_well_formed(blocks: Seq<Tree>) -> bool {
    forall|i: int| 0 <= i < blocks.len() ==> well_formed(#[trigger] blocks[i])
}

/// Whether every block among the items is well formed.
pub open spec fn items_well_formed(items: Seq<ItemSpec>) -> bool {
    forall|i: int|
        0 <= i < items.len() ==> (#[trigger] items[i] matches ItemSpec::Block(block)
            ==> well_formed(block))
}

/// Whether every block in the frames is well formed.
pub open spec fn frames_well_formed(frames: Seq<FrameSpec>) -> bool {
    forall|i: int|
        0 <= i < frames.len() ==> items_well_formed((#[trigger] frames[i]).items)
            && items_well_formed(frames[i].saved)
}

proof fn lemma_grouped_well_formed(items: Seq<ItemSpec>)
    requires
        items_well_formed(items),
    ensures
        blocks_well_formed(group_state(items).0),
        blocks_well_formed(blocks_of(items)),
        items.len() > 0 ==> blocks_of(items).len() > 0,
    decreases items.len(),
{
    if items.len() > 0 {
        let front = items.drop_last();
        assert forall|i: int| 0 <= i < front.len() implies (#[trigger] front[i] matches ItemSpec::Block(
            block,
        ) ==> well_formed(block)) by {
            assert(front[i] == items[i]);
        }
        lemma_grouped_well_formed(front);
        assert(items.last() == items[items.len() - 1]);
    }
}

proof fn lemma_joined_well_formed(blocks: Seq<Tree>)
    requires
        blocks_well_formed(blocks),
    ensures
        well_formed(join_all(blocks)),
    decreases blocks.len(),
{
    if blocks.len() > 1 {
        let front = blocks.drop_last();
        assert forall|i: int| 0 <= i < front.len() implies well_formed(#[trigger] front[i]) by {
            assert(front[i] == blocks[i]);
        }
        lemma_joined_well_formed(front);
        assert(blocks.last() == blocks[blocks.len() - 1]);
    } else if blocks.len() == 1 {
        assert(well_formed(blocks[0]));
    }
}

proof fn lemma_assembled_well_formed(items: Seq<ItemSpec>)
    requires
        items_well_formed(items),
    ensures
        well_formed(assemble(items)),
        well_formed(arm(items)),
{
    lemma_grouped_well_formed(items);
    lemma_joined_well_formed(blocks_of(items));
}

proof fn lemma_repeated_well_formed(items: Seq<ItemSpec>, count: nat)
    requires
        items_well_formed(items),
    ensures
        items_well_formed(repeat_items(items, count)),
    decreases count,
{
    if count > 0 {
        lemma_repeated_well_formed(items, (count - 1) as nat);
    }
}

proof fn lemma_pushed_well_formed(frames: Seq<FrameSpec>, more: Seq<ItemSpec>)
    requires
        frames.len() > 0,
        frames_well_formed(frames),
        items_well_formed(more),
    ensures
        frames_well_formed(push_items(frames, more)),
        well_stacked(frames) ==> well_stacked(push_items(frames, more)),
{
    let pushed = push_items(frames, more);
    assert forall|i: int| 0 <= i < pushed.len() implies items_well_formed(
        (#[trigger] pushed[i]).items,
    ) && items_well_formed(pushed[i].saved) by {
        assert(items_well_formed(frames[i].items));
    }
}

/// A token that is read without error keeps the blocks in the frames well formed.
proof fn lemma_step_well_formed(
    lookup: spec_fn(Seq<u8>) -> Option<NamedModuleSpec>,
    module: ModuleSpec,
    limit: nat,
    num_locals: u32,
    depth: nat,
    frames: Seq<FrameSpec>,
    token: Seq<char>,
)
    requires
        well_stacked(frames),
        frames_well_formed(frames),
        step_spec(lookup, module, limit, num_locals, depth, frames, token) is Ok,
    ensures
        well_stacked(step_spec(lookup, module, limit, num_locals, depth, frames, token)->Ok_0),
        frames_well_formed(
            step_spec(lookup, module, limit, num_locals, depth, frames, token)->Ok_0,
        ),
    decreases depth, limit, 1nat, 0nat,
{
    let top = frames.last();
    let rest = frames.drop_last();
    assert(items_well_formed(top.items) && items_well_formed(top.saved)) by {
        assert(top == frames[frames.len() - 1]);
    }
    match decode_spec(token, num_locals) {
        Err(_) => {},
        Ok(instruction) => match instruction {
            InstructionSpec::Ops(ops) => {
                lemma_pushed_well_formed(frames, ops_items(ops));
            },
            InstructionSpec::End => {
                assert(frames.len() > 1);
                assert(well_stacked(rest));
                assert forall|i: int| 0 <= i < rest.len() implies items_well_formed(
                    (#[trigger] rest[i]).items,
                ) && items_well_formed(rest[i].saved) by {
                    assert(rest[i] == frames[i]);
                }
                lemma_assembled_well_formed(top.items);
                lemma_assembled_well_formed(top.saved);
                match top.kind {
                    FrameKind::Then => {
                        let split = Tree::Split(
                            Box::new(arm(top.items)),
                            Box::new(noop_span()),
                        );
                        assert(well_formed(noop_span()));
                        assert(well_formed(split));
                        assert(seq![ItemSpec::Block(split)][0] == ItemSpec::Block(split));
                        lemma_pushed_well_formed(
                            rest,
                            seq![
                                ItemSpec::Block(
                                    Tree::Split(
                                        Box::new(arm(top.items)),
                                        Box::new(noop_span()),
                                    ),
                                ),
                            ],
                        );
                    },
                    FrameKind::Else => {
                        lemma_pushed_well_formed(
                            rest,
                            seq![
                                ItemSpec::Block(
                                    Tree::Split(
                                        Box::new(arm(top.saved)),
                                        Box::new(arm(top.items)),
                                    ),
                                ),
                            ],
                        );
                    },
                    FrameKind::While => {
                        lemma_pushed_well_formed(
                            rest,
                            seq![ItemSpec::Block(Tree::Loop(Box::new(assemble(top.items))))],
                        );
                    },
                    FrameKind::Repeat(count) => {
                        lemma_repeated_well_formed(top.items, count as nat);
                        lemma_pushed_well_formed(rest, repeat_items(top.items, count as nat));
                    },
                    FrameKind::Root => {},
                }
            },
            InstructionSpec::Exec { module: target, name } => {
                lemma_callee_well_formed(lookup, module, limit, target, name, depth);
                lemma_pushed_well_formed(
                    frames,
                    callee_spec(lookup, module, limit, target, name, depth)->Ok_0,
                );
            },
            InstructionSpec::Else => {
                let next = step_spec(lookup, module, limit, num_locals, depth, frames, token)->Ok_0;
                assert forall|i: int| 0 <= i < next.len() implies items_well_formed(
                    (#[trigger] next[i]).items,
                ) && items_well_formed(next[i].saved) by {
                    if i < rest.len() {
                        assert(next[i] == frames[i]);
                    }
                }
            },
            InstructionSpec::IfTrue | InstructionSpec::WhileTrue | InstructionSpec::Repeat(_) => {
                let next = step_spec(lookup, module, limit, num_locals, depth, frames, token)->Ok_0;
                assert forall|i: int| 0 <= i < next.len() implies items_well_formed(
                    (#[trigger] next[i]).items,
                ) && items_well_formed(next[i].saved) by {
                    if i < frames.len() {
                        assert(next[i] == frames[i]);
                    }
                }
            },
            _ => {},
        },
    }
}

/// The items that a call puts in its place hold well-formed blocks.
proof fn lemma_callee_well_formed(
    lookup: spec_fn(Seq<u8>) -> Option<NamedModuleSpec>,
    module: ModuleSpec,
    limit: nat,
    target: Option<Seq<char>>,
    name: Seq<char>,
    depth: nat,
)
    requires
        callee_spec(lookup, module, limit, target, name, depth) is Ok,
    ensures
        items_well_formed(callee_spec(lookup, module, limit, target, name, depth)->Ok_0),
    decreases depth, limit, 0nat, 0nat,
{
    match target {
        None => {
            let index = find_proc(
                module.local_procs.take(limit as int),
                name,
            )->Some_0;
            let callee = module.local_procs[index];
            lemma_build_well_formed(
                lookup,
                module,
                index as nat,
                callee.body,
                callee.num_locals,
                depth,
            );
        },
        Some(alias) => {
            let path = find_import(module.imports, alias)->Some_0;
            let named = lookup(procedure_id(path, name))->Some_0;
            let index = find_proc(named.module.local_procs, name)->Some_0;
            let callee = named.module.local_procs[index];
            lemma_build_well_formed(
                lookup,
                named.module,
                index as nat,
                callee.body,
                callee.num_locals,
                (depth - 1) as nat,
            );
        },
    }
}

/// The frames after the first tokens of a body hold well-formed blocks.
proof fn lemma_run_well_formed(
    lookup: spec_fn(Seq<u8>) -> Option<NamedModuleSpec>,
    module: ModuleSpec,
    limit: nat,
    tokens: Seq<Seq<char>>,
    num_locals: u32,
    depth: nat,
    count: nat,
)
    requires
        run_spec(lookup, module, limit, tokens, num_locals, depth, count) is Ok,
    ensures
        well_stacked(run_spec(lookup, module, limit, tokens, num_locals, depth, count)->Ok_0),
        frames_well_formed(
            run_spec(lookup, module, limit, tokens, num_locals, depth, count)->Ok_0,
        ),
    decreases depth, limit, 2nat, count,
{
    if count == 0 || count > tokens.len() {
    } else {
        lemma_run_well_formed(lookup, module, limit, tokens, num_locals, depth, (count - 1) as nat);
        let frames = run_spec(
            lookup,
            module,
            limit,
            tokens,
            num_locals,
            depth,
            (count - 1) as nat,
        )->Ok_0;
        lemma_step_well_formed(
            lookup,
            module,
            limit,
            num_locals,
            depth,
            frames,
            tokens[count - 1],
        );
    }
}

/// The items of a body hold well-formed blocks.
proof fn lemma_build_well_formed(
    lookup: spec_fn(Seq<u8>) -> Option<NamedModuleSpec>,
    module: ModuleSpec,
    limit: nat,
    tokens: Seq<Seq<char>>,
    num_locals: u32,
    depth: nat,
)
    requires
        build_spec(lookup, module, limit, tokens, num_locals, depth) is Ok,
    ensures
        items_well_formed(build_spec(lookup, module, limit, tokens, num_locals, depth)->Ok_0),
        items_well_formed(
            framed(
                num_locals,
                build_spec(lookup, module, limit, tokens, num_locals, depth)->Ok_0,
            ),
        ),
    decreases depth, limit, 3nat, 0nat,
{
    lemma_run_well_formed(lookup, module, limit, tokens, num_locals, depth, tokens.len());
    let frames = run_spec(lookup, module, limit, tokens, num_locals, depth, tokens.len())->Ok_0;
    assert(items_well_formed(frames[0].items));
}

/// Every span of a compiled program holds at least one operation.
pub proof fn lemma_compiled_tokens_well_formed(
    lookup: spec_fn(Seq<u8>) -> Option<NamedModuleSpec>,
    tokens: Seq<Seq<char>>,
)
    requires
        compile_tokens(lookup, tokens) is Ok,
    ensures
        well_formed(compile_tokens(lookup, tokens)->Ok_0),
{
    let module = parse_tokens(tokens)->Ok_0;
    let body = module.body->Some_0;
    lemma_build_well_formed(
        lookup,
        module,
        module.local_procs.len(),
        body,
        0,
        MAX_IMPORT_DEPTH as nat,
    );
    lemma_assembled_well_formed(
        build_spec(
            lookup,
            module,
            module.local_procs.len(),
            body,
            0,
            MAX_IMPORT_DEPTH as nat,
        )->Ok_0,
    );
}

/// Every span of the program that a source text compiles to holds at least one operation.
pub proof fn lemma_compiled_well_formed(
    lookup: spec_fn(Seq<u8>) -> Option<NamedModuleSpec>,
    source: Seq<char>,
)
    requires
        compile_spec(lookup, source) is Ok,
    ensures
        well_formed(compile_spec(lookup, source)->Ok_0),
{
    lemma_compiled_tokens_well_formed(lookup, tokens_of(source));
}

} // verus!
