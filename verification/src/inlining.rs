//! Inlining is structural: a call of a procedure stands for the tokens of its body.

use crate::blocks::Tree;
use crate::assembler::compile_tokens;
use crate::builder::{
    arm, assemble, build_spec, callee_spec, find_proc, find_proc_from, finish, framed, new_frame,
    noop_span, ops_items, push_items, repeat_items, run_spec, step_spec, well_stacked, FrameKind,
    FrameSpec, ItemSpec, MAX_IMPORT_DEPTH,
};
use crate::errors::{BlockKind, ErrorSpec};
use crate::instruction::{
    decode_spec, is_label, is_label_char, split, split_state, InstructionSpec,
};
use crate::parser::{
    declares, empty_module, has_export, has_proc, parse_from, parse_tokens, scan_spec, ModuleSpec,
    Opener, ProcedureSpec,
};
use crate::procedures::NamedModuleSpec;
use vstd::prelude::*;

verus! {

/// The result of a scan, with the position that it names moved by `by`.
pub open spec fn moved(result: Result<int, ErrorSpec>, by: int) -> Result<int, ErrorSpec> {
    match result {
        Ok(end) => Ok(end + by),
        Err(e) => Err(e),
    }
}

/// A scan looks only at the tokens from its position on: two token sequences that agree
/// from their positions on are scanned alike.
proof fn lemma_scan_looks_ahead(
    one: Seq<Seq<char>>,
    at: int,
    other: Seq<Seq<char>>,
    there: int,
    open: Seq<Opener>,
    fresh: bool,
    root: BlockKind,
    num_locals: u32,
)
    requires
        0 <= at <= one.len(),
        0 <= there <= other.len(),
        one.subrange(at, one.len() as int) == other.subrange(there, other.len() as int),
    ensures
        scan_spec(one, at, open, fresh, root, num_locals) == moved(
            scan_spec(other, there, open, fresh, root, num_locals),
            at - there,
        ),
    decreases one.len() - at,
{
    let tail = one.subrange(at, one.len() as int);
    assert(tail.len() == one.len() - at);
    assert(tail.len() == other.len() - there);
    if at < one.len() {
        assert(one[at] == tail[0]);
        assert(other[there] == tail[0]);
        assert(one.subrange(at + 1, one.len() as int) == tail.subrange(1, tail.len() as int));
        assert(other.subrange(there + 1, other.len() as int) == tail.subrange(
            1,
            tail.len() as int,
        ));
        match decode_spec(one[at], num_locals) {
            Err(_) => {},
            Ok(instruction) => match instruction {
                InstructionSpec::End => {
                    if open.len() > 0 && !fresh {
                        lemma_scan_looks_ahead(
                            one,
                            at + 1,
                            other,
                            there + 1,
                            open.drop_last(),
                            false,
                            root,
                            num_locals,
                        );
                    }
                },
                InstructionSpec::IfTrue => {
                    lemma_scan_looks_ahead(
                        one,
                        at + 1,
                        other,
                        there + 1,
                        open.push(Opener::If),
                        false,
                        root,
                        num_locals,
                    );
                },
                InstructionSpec::WhileTrue => {
                    lemma_scan_looks_ahead(
                        one,
                        at + 1,
                        other,
                        there + 1,
                        open.push(Opener::While),
                        true,
                        root,
                        num_locals,
                    );
                },
                InstructionSpec::Repeat(_) => {
                    lemma_scan_looks_ahead(
                        one,
                        at + 1,
                        other,
                        there + 1,
                        open.push(Opener::Repeat),
                        true,
                        root,
                        num_locals,
                    );
                },
                InstructionSpec::Else => {
                    if open.len() > 0 && open.last() == Opener::If {
                        lemma_scan_looks_ahead(
                            one,
                            at + 1,
                            other,
                            there + 1,
                            open.drop_last().push(Opener::Else),
                            false,
                            root,
                            num_locals,
                        );
                    }
                },
                InstructionSpec::Ops(_) | InstructionSpec::Exec { .. } => {
                    lemma_scan_looks_ahead(
                        one,
                        at + 1,
                        other,
                        there + 1,
                        open,
                        false,
                        root,
                        num_locals,
                    );
                },
                _ => {},
            },
        }
    }
}

/// A scan that finds the end of its body does not look beyond it: tokens added after the
/// sequence do not change the result.
proof fn lemma_scan_stops_at_end(
    tokens: Seq<Seq<char>>,
    more: Seq<Seq<char>>,
    at: int,
    open: Seq<Opener>,
    fresh: bool,
    root: BlockKind,
    num_locals: u32,
)
    requires
        0 <= at,
        scan_spec(tokens, at, open, fresh, root, num_locals) is Ok,
    ensures
        scan_spec(tokens + more, at, open, fresh, root, num_locals) == scan_spec(
            tokens,
            at,
            open,
            fresh,
            root,
            num_locals,
        ),
    decreases tokens.len() - at,
{
    if at < tokens.len() {
        assert((tokens + more)[at] == tokens[at]);
        match decode_spec(tokens[at], num_locals) {
            Err(_) => {},
            Ok(instruction) => match instruction {
                InstructionSpec::End => {
                    if open.len() > 0 && !fresh {
                        lemma_scan_stops_at_end(
                            tokens,
                            more,
                            at + 1,
                            open.drop_last(),
                            false,
                            root,
                            num_locals,
                        );
                    }
                },
                InstructionSpec::IfTrue => {
                    lemma_scan_stops_at_end(
                        tokens,
                        more,
                        at + 1,
                        open.push(Opener::If),
                        false,
                        root,
                        num_locals,
                    );
                },
                InstructionSpec::WhileTrue => {
                    lemma_scan_stops_at_end(
                        tokens,
                        more,
                        at + 1,
                        open.push(Opener::While),
                        true,
                        root,
                        num_locals,
                    );
                },
                InstructionSpec::Repeat(_) => {
                    lemma_scan_stops_at_end(
                        tokens,
                        more,
                        at + 1,
                        open.push(Opener::Repeat),
                        true,
                        root,
                        num_locals,
                    );
                },
                InstructionSpec::Else => {
                    if open.len() > 0 && open.last() == Opener::If {
                        lemma_scan_stops_at_end(
                            tokens,
                            more,
                            at + 1,
                            open.drop_last().push(Opener::Else),
                            false,
                            root,
                            num_locals,
                        );
                    }
                },
                InstructionSpec::Ops(_) | InstructionSpec::Exec { .. } => {
                    lemma_scan_stops_at_end(tokens, more, at + 1, open, false, root, num_locals);
                },
                _ => {},
            },
        }
    }
}

/// A scan that succeeds at the last token finds nothing open there.
proof fn lemma_scan_closes_at_last(
    tokens: Seq<Seq<char>>,
    open: Seq<Opener>,
    fresh: bool,
    root: BlockKind,
    num_locals: u32,
)
    requires
        tokens.len() > 0,
        scan_spec(tokens, tokens.len() - 1, open, fresh, root, num_locals) is Ok,
    ensures
        open.len() == 0,
{
    let last = tokens.len() - 1;
    assert(forall|still: Seq<Opener>, new: bool|
        (#[trigger] scan_spec(tokens, last + 1, still, new, root, num_locals)) is Err);
    match decode_spec(tokens[last], num_locals) {
        Ok(InstructionSpec::Else) => {
            if open.len() > 0 && open.last() == Opener::If {
                assert(scan_spec(
                    tokens,
                    last + 1,
                    open.drop_last().push(Opener::Else),
                    false,
                    root,
                    num_locals,
                ) is Err);
            }
        },
        Ok(InstructionSpec::End) => {
            if open.len() > 0 && !fresh {
                assert(scan_spec(tokens, last + 1, open.drop_last(), false, root, num_locals)
                    is Err);
            }
        },
        Ok(InstructionSpec::IfTrue) => {
            assert(scan_spec(tokens, last + 1, open.push(Opener::If), false, root, num_locals)
                is Err);
        },
        Ok(InstructionSpec::WhileTrue) => {
            assert(scan_spec(tokens, last + 1, open.push(Opener::While), true, root, num_locals)
                is Err);
        },
        Ok(InstructionSpec::Repeat(_)) => {
            assert(scan_spec(tokens, last + 1, open.push(Opener::Repeat), true, root, num_locals)
                is Err);
        },
        Ok(InstructionSpec::Ops(_)) | Ok(InstructionSpec::Exec { .. }) => {
            assert(scan_spec(tokens, last + 1, open, false, root, num_locals) is Err);
        },
        _ => {},
    }
}

/// Whether `tokens` are a complete body of a procedure with `num_locals` locals: followed
/// by the token `end`, they are scanned without error up to that token.
pub open spec fn is_body(tokens: Seq<Seq<char>>, end: Seq<char>, num_locals: u32) -> bool {
    &&& tokens.len() > 0
    &&& scan_spec(tokens.push(end), 0, Seq::empty(), false, BlockKind::Proc, num_locals) == Ok::<
        int,
        ErrorSpec,
    >(tokens.len() as int)
}

/// A scan passes over a complete body as over a single instruction: inside any other
/// body, it arrives behind the tokens with the constructs open that were open before
/// them.
proof fn lemma_scan_passes_body(
    body: Seq<Seq<char>>,
    end: Seq<char>,
    before: Seq<Seq<char>>,
    after: Seq<Seq<char>>,
    outer: Seq<Opener>,
    root: BlockKind,
    num_locals: u32,
    done: int,
    inner: Seq<Opener>,
    inner_fresh: bool,
    fresh: bool,
)
    requires
        0 <= done <= body.len(),
        body.len() > 0,
        scan_spec(body.push(end), done, inner, inner_fresh, BlockKind::Proc, num_locals) == Ok::<
            int,
            ErrorSpec,
        >(body.len() as int),
        inner_fresh ==> inner.len() > 0,
        fresh == inner_fresh || (done == 0 && inner.len() == 0),
    ensures
        scan_spec(
            before + body + after,
            before.len() + done,
            outer + inner,
            fresh,
            root,
            num_locals,
        ) == scan_spec(
            before + body + after,
            (before.len() + body.len()) as int,
            outer,
            false,
            root,
            num_locals,
        ),
    decreases body.len() - done,
{
    let alone = body.push(end);
    let whole = before + body + after;
    if done == body.len() {
        assert(alone[done] == end);
        // the closing `end` is reached with nothing open
        lemma_scan_closes_at_last(alone, inner, inner_fresh, BlockKind::Proc, num_locals);
        assert(outer + inner == outer);
    } else {
        let token = body[done];
        assert(alone[done] == token);
        assert(whole[before.len() + done] == token);
        match decode_spec(token, num_locals) {
            Err(_) => {},
            Ok(instruction) => match instruction {
                InstructionSpec::End => {
                    assert(inner.len() > 0);
                    assert(!inner_fresh);
                    assert((outer + inner).drop_last() == outer + inner.drop_last());
                    lemma_scan_passes_body(
                        body,
                        end,
                        before,
                        after,
                        outer,
                        root,
                        num_locals,
                        done + 1,
                        inner.drop_last(),
                        false,
                        false,
                    );
                },
                InstructionSpec::IfTrue => {
                    assert((outer + inner).push(Opener::If) == outer + inner.push(Opener::If));
                    lemma_scan_passes_body(
                        body,
                        end,
                        before,
                        after,
                        outer,
                        root,
                        num_locals,
                        done + 1,
                        inner.push(Opener::If),
                        false,
                        false,
                    );
                },
                InstructionSpec::WhileTrue => {
                    assert((outer + inner).push(Opener::While) == outer + inner.push(
                        Opener::While,
                    ));
                    lemma_scan_passes_body(
                        body,
                        end,
                        before,
                        after,
                        outer,
                        root,
                        num_locals,
                        done + 1,
                        inner.push(Opener::While),
                        true,
                        true,
                    );
                },
                InstructionSpec::Repeat(_) => {
                    assert((outer + inner).push(Opener::Repeat) == outer + inner.push(
                        Opener::Repeat,
                    ));
                    lemma_scan_passes_body(
                        body,
                        end,
                        before,
                        after,
                        outer,
                        root,
                        num_locals,
                        done + 1,
                        inner.push(Opener::Repeat),
                        true,
                        true,
                    );
                },
                InstructionSpec::Else => {
                    assert(inner.len() > 0 && inner.last() == Opener::If);
                    assert((outer + inner).last() == Opener::If);
                    assert((outer + inner).drop_last().push(Opener::Else) == outer
                        + inner.drop_last().push(Opener::Else));
                    lemma_scan_passes_body(
                        body,
                        end,
                        before,
                        after,
                        outer,
                        root,
                        num_locals,
                        done + 1,
                        inner.drop_last().push(Opener::Else),
                        false,
                        false,
                    );
                },
                InstructionSpec::Ops(_) | InstructionSpec::Exec { .. } => {
                    lemma_scan_passes_body(
                        body,
                        end,
                        before,
                        after,
                        outer,
                        root,
                        num_locals,
                        done + 1,
                        inner,
                        false,
                        false,
                    );
                },
                _ => {},
            },
        }
    }
}

/// A scan that passes a single instruction passes a complete body in its place, and ends
/// where it ended before, moved by what the body is longer.
proof fn lemma_scan_with_body_in_place(
    before: Seq<Seq<char>>,
    call: Seq<char>,
    body: Seq<Seq<char>>,
    end: Seq<char>,
    after: Seq<Seq<char>>,
    at: int,
    open: Seq<Opener>,
    fresh: bool,
    root: BlockKind,
    num_locals: u32,
    found: int,
)
    requires
        0 <= at <= before.len(),
        is_body(body, end, num_locals),
        decode_spec(call, num_locals) matches Ok(InstructionSpec::Exec { .. }),
        found > before.len(),
        scan_spec(before.push(call) + after, at, open, fresh, root, num_locals) == Ok::<
            int,
            ErrorSpec,
        >(found),
    ensures
        scan_spec(before + body + after, at, open, fresh, root, num_locals) == Ok::<
            int,
            ErrorSpec,
        >(found + body.len() - 1),
    decreases before.len() - at,
{
    let with_call = before.push(call) + after;
    let in_place = before + body + after;
    if at == before.len() {
        assert(with_call[at] == call);
        assert(open + Seq::<Opener>::empty() == open);
        lemma_scan_passes_body(
            body,
            end,
            before,
            after,
            open,
            root,
            num_locals,
            0,
            Seq::empty(),
            false,
            fresh,
        );
        let behind_body = (before.len() + body.len()) as int;
        let behind_call = (before.len() + 1) as int;
        assert(in_place.subrange(behind_body, in_place.len() as int) == after);
        assert(with_call.subrange(behind_call, with_call.len() as int) == after);
        lemma_scan_looks_ahead(
            in_place,
            behind_body,
            with_call,
            behind_call,
            open,
            false,
            root,
            num_locals,
        );
    } else {
        assert(with_call[at] == before[at]);
        assert(in_place[at] == before[at]);
        match decode_spec(before[at], num_locals) {
            Err(_) => {},
            Ok(instruction) => match instruction {
                InstructionSpec::End => {
                    lemma_scan_with_body_in_place(
                        before,
                        call,
                        body,
                        end,
                        after,
                        at + 1,
                        open.drop_last(),
                        false,
                        root,
                        num_locals,
                        found,
                    );
                },
                InstructionSpec::IfTrue => {
                    lemma_scan_with_body_in_place(
                        before,
                        call,
                        body,
                        end,
                        after,
                        at + 1,
                        open.push(Opener::If),
                        false,
                        root,
                        num_locals,
                        found,
                    );
                },
                InstructionSpec::WhileTrue => {
                    lemma_scan_with_body_in_place(
                        before,
                        call,
                        body,
                        end,
                        after,
                        at + 1,
                        open.push(Opener::While),
                        true,
                        root,
                        num_locals,
                        found,
                    );
                },
                InstructionSpec::Repeat(_) => {
                    lemma_scan_with_body_in_place(
                        before,
                        call,
                        body,
                        end,
                        after,
                        at + 1,
                        open.push(Opener::Repeat),
                        true,
                        root,
                        num_locals,
                        found,
                    );
                },
                InstructionSpec::Else => {
                    lemma_scan_with_body_in_place(
                        before,
                        call,
                        body,
                        end,
                        after,
                        at + 1,
                        open.drop_last().push(Opener::Else),
                        false,
                        root,
                        num_locals,
                        found,
                    );
                },
                InstructionSpec::Ops(_) | InstructionSpec::Exec { .. } => {
                    lemma_scan_with_body_in_place(
                        before,
                        call,
                        body,
                        end,
                        after,
                        at + 1,
                        open,
                        false,
                        root,
                        num_locals,
                        found,
                    );
                },
                _ => {},
            },
        }
    }
}

/// The frames after `tokens`, read with the given frames open, or the first error in them.
pub open spec fn run_from(
    lookup: spec_fn(Seq<u8>) -> Option<NamedModuleSpec>,
    module: ModuleSpec,
    limit: nat,
    num_locals: u32,
    depth: nat,
    frames: Seq<FrameSpec>,
    tokens: Seq<Seq<char>>,
) -> Result<Seq<FrameSpec>, ErrorSpec>
    decreases tokens.len(),
{
    if tokens.len() == 0 {
        Ok(frames)
    } else {
        match run_from(lookup, module, limit, num_locals, depth, frames, tokens.drop_last()) {
            Err(e) => Err(e),
            Ok(next) => step_spec(lookup, module, limit, num_locals, depth, next, tokens.last()),
        }
    }
}

/// The frames after the first tokens of a body are the frames after these tokens, read
/// with only the body itself open.
proof fn lemma_run_is_run_from_root(
    lookup: spec_fn(Seq<u8>) -> Option<NamedModuleSpec>,
    module: ModuleSpec,
    limit: nat,
    tokens: Seq<Seq<char>>,
    num_locals: u32,
    depth: nat,
    count: nat,
)
    requires
        count <= tokens.len(),
    ensures
        run_spec(lookup, module, limit, tokens, num_locals, depth, count) == run_from(
            lookup,
            module,
            limit,
            num_locals,
            depth,
            seq![new_frame(FrameKind::Root)],
            tokens.take(count as int),
        ),
    decreases count,
{
    if count > 0 {
        lemma_run_is_run_from_root(
            lookup,
            module,
            limit,
            tokens,
            num_locals,
            depth,
            (count - 1) as nat,
        );
        assert(tokens.take(count as int).drop_last() == tokens.take(count - 1));
        assert(tokens.take(count as int).last() == tokens[count - 1]);
    }
}

/// Reading one sequence of tokens after another is reading the two in a row.
proof fn lemma_run_in_a_row(
    lookup: spec_fn(Seq<u8>) -> Option<NamedModuleSpec>,
    module: ModuleSpec,
    limit: nat,
    num_locals: u32,
    depth: nat,
    frames: Seq<FrameSpec>,
    first: Seq<Seq<char>>,
    second: Seq<Seq<char>>,
)
    ensures
        run_from(lookup, module, limit, num_locals, depth, frames, first + second) == match run_from(
            lookup,
            module,
            limit,
            num_locals,
            depth,
            frames,
            first,
        ) {
            Err(e) => Err(e),
            Ok(next) => run_from(lookup, module, limit, num_locals, depth, next, second),
        },
    decreases second.len(),
{
    if second.len() == 0 {
        assert(first + second == first);
    } else {
        lemma_run_in_a_row(
            lookup,
            module,
            limit,
            num_locals,
            depth,
            frames,
            first,
            second.drop_last(),
        );
        assert((first + second).drop_last() == first + second.drop_last());
        assert((first + second).last() == second.last());
    }
}

/// Whether a token is a call of the procedure `name` of the module that it stands in.
pub open spec fn is_call_of(token: Seq<char>, num_locals: u32, name: Seq<char>) -> bool {
    decode_spec(token, num_locals) == Ok::<InstructionSpec, ErrorSpec>(
        InstructionSpec::Exec { module: None, name },
    )
}

/// Whether a token is a call of a procedure that the module defines in its first `limit`
/// procedures.
pub open spec fn calls_defined(token: Seq<char>, num_locals: u32, module: ModuleSpec, limit: nat) -> bool {
    decode_spec(token, num_locals) matches Ok(InstructionSpec::Exec { module: None, name })
        && find_proc(module.local_procs.take(limit as int), name) is Some
}

/// A token that calls no procedure that either of two modules defines is read alike in
/// both, provided that they have the same imports.
proof fn lemma_step_without_defined_call(
    lookup: spec_fn(Seq<u8>) -> Option<NamedModuleSpec>,
    one: ModuleSpec,
    one_limit: nat,
    other: ModuleSpec,
    other_limit: nat,
    num_locals: u32,
    depth: nat,
    frames: Seq<FrameSpec>,
    token: Seq<char>,
)
    requires
        one.imports == other.imports,
        !calls_defined(token, num_locals, one, one_limit),
        !calls_defined(token, num_locals, other, other_limit),
    ensures
        step_spec(lookup, one, one_limit, num_locals, depth, frames, token) == step_spec(
            lookup,
            other,
            other_limit,
            num_locals,
            depth,
            frames,
            token,
        ),
{
    match decode_spec(token, num_locals) {
        Ok(InstructionSpec::Exec { module: target, name }) => {
            assert(callee_spec(lookup, one, one_limit, target, name, depth) == callee_spec(
                lookup,
                other,
                other_limit,
                target,
                name,
                depth,
            ));
        },
        _ => {},
    }
}

/// Tokens that call no procedure that either of two modules defines are read alike in
/// both, provided that they have the same imports.
proof fn lemma_run_without_defined_calls(
    lookup: spec_fn(Seq<u8>) -> Option<NamedModuleSpec>,
    one: ModuleSpec,
    one_limit: nat,
    other: ModuleSpec,
    other_limit: nat,
    num_locals: u32,
    depth: nat,
    frames: Seq<FrameSpec>,
    tokens: Seq<Seq<char>>,
)
    requires
        one.imports == other.imports,
        forall|i: int|
            0 <= i < tokens.len() ==> !calls_defined(#[trigger] tokens[i], num_locals, one, one_limit),
        forall|i: int|
            0 <= i < tokens.len() ==> !calls_defined(
                #[trigger] tokens[i],
                num_locals,
                other,
                other_limit,
            ),
    ensures
        run_from(lookup, one, one_limit, num_locals, depth, frames, tokens) == run_from(
            lookup,
            other,
            other_limit,
            num_locals,
            depth,
            frames,
            tokens,
        ),
    decreases tokens.len(),
{
    if tokens.len() > 0 {
        let front = tokens.drop_last();
        assert forall|i: int| 0 <= i < front.len() implies !calls_defined(
            #[trigger] front[i],
            num_locals,
            one,
            one_limit,
        ) by {
            assert(front[i] == tokens[i]);
        }
        assert forall|i: int| 0 <= i < front.len() implies !calls_defined(
            #[trigger] front[i],
            num_locals,
            other,
            other_limit,
        ) by {
            assert(front[i] == tokens[i]);
        }
        lemma_run_without_defined_calls(
            lookup,
            one,
            one_limit,
            other,
            other_limit,
            num_locals,
            depth,
            frames,
            front,
        );
        assert(tokens.last() == tokens[tokens.len() - 1]);
        match run_from(lookup, one, one_limit, num_locals, depth, frames, front) {
            Err(_) => {},
            Ok(next) => {
                lemma_step_without_defined_call(
                    lookup,
                    one,
                    one_limit,
                    other,
                    other_limit,
                    num_locals,
                    depth,
                    next,
                    tokens.last(),
                );
            },
        }
    }
}

/// The frames of a body read in place: the frames that were open before it, with the
/// items of the body's own outermost frame added to the innermost of them, followed by
/// the other frames of the body.
pub open spec fn graft(base: Seq<FrameSpec>, own: Seq<FrameSpec>) -> Seq<FrameSpec>
    recommends
        base.len() > 0,
        own.len() > 0,
{
    base.drop_last().push(
        FrameSpec { items: base.last().items + own[0].items, ..base.last() },
    ) + own.subrange(1, own.len() as int)
}

proof fn lemma_graft_inner(base: Seq<FrameSpec>, own: Seq<FrameSpec>)
    requires
        base.len() > 0,
        own.len() > 1,
    ensures
        graft(base, own).len() == base.len() + own.len() - 1,
        graft(base, own).last() == own.last(),
        graft(base, own).drop_last() == graft(base, own.drop_last()),
{
    assert(graft(base, own).drop_last() =~= graft(base, own.drop_last()));
}

proof fn lemma_graft_push(base: Seq<FrameSpec>, own: Seq<FrameSpec>, frame: FrameSpec)
    requires
        base.len() > 0,
        own.len() > 0,
    ensures
        graft(base, own.push(frame)) == graft(base, own).push(frame),
{
    assert(graft(base, own.push(frame)) =~= graft(base, own).push(frame));
}

proof fn lemma_graft_items(base: Seq<FrameSpec>, own: Seq<FrameSpec>, more: Seq<ItemSpec>)
    requires
        base.len() > 0,
        own.len() > 0,
    ensures
        push_items(graft(base, own), more) == graft(base, push_items(own, more)),
{
    if own.len() == 1 {
        assert((base.last().items + own[0].items) + more =~= base.last().items + (own[0].items
            + more));
        assert(push_items(graft(base, own), more) =~= graft(base, push_items(own, more)));
    } else {
        lemma_graft_inner(base, own);
        assert(push_items(graft(base, own), more) =~= graft(base, push_items(own, more)));
    }
}

proof fn lemma_graft_root(base: Seq<FrameSpec>)
    requires
        base.len() > 0,
    ensures
        graft(base, seq![new_frame(FrameKind::Root)]) == base,
{
    assert(base.last().items + Seq::<ItemSpec>::empty() =~= base.last().items);
    assert(graft(base, seq![new_frame(FrameKind::Root)]) =~= base);
}

proof fn lemma_graft_single(base: Seq<FrameSpec>, own: Seq<FrameSpec>)
    requires
        base.len() > 0,
        own.len() == 1,
    ensures
        graft(base, own) == push_items(base, own[0].items),
{
    assert(graft(base, own) =~= push_items(base, own[0].items));
}

/// The items that a frame becomes in its parent when it is closed.
pub open spec fn closing_items(top: FrameSpec) -> Seq<ItemSpec> {
    match top.kind {
        FrameKind::Root => Seq::empty(),
        FrameKind::Then => seq![
            ItemSpec::Block(Tree::Split(Box::new(arm(top.items)), Box::new(noop_span()))),
        ],
        FrameKind::Else => seq![
            ItemSpec::Block(Tree::Split(Box::new(arm(top.saved)), Box::new(arm(top.items)))),
        ],
        FrameKind::While => seq![ItemSpec::Block(Tree::Loop(Box::new(assemble(top.items))))],
        FrameKind::Repeat(count) => repeat_items(top.items, count as nat),
    }
}

/// A token that is read without error with only a body's own frames open is read alike
/// with other frames open below them.
proof fn lemma_step_in_place(
    lookup: spec_fn(Seq<u8>) -> Option<NamedModuleSpec>,
    module: ModuleSpec,
    limit: nat,
    num_locals: u32,
    depth: nat,
    base: Seq<FrameSpec>,
    own: Seq<FrameSpec>,
    token: Seq<char>,
)
    requires
        base.len() > 0,
        well_stacked(own),
        step_spec(lookup, module, limit, num_locals, depth, own, token) is Ok,
    ensures
        well_stacked(step_spec(lookup, module, limit, num_locals, depth, own, token)->Ok_0),
        step_spec(lookup, module, limit, num_locals, depth, graft(base, own), token) == Ok::<
            Seq<FrameSpec>,
            ErrorSpec,
        >(graft(base, step_spec(lookup, module, limit, num_locals, depth, own, token)->Ok_0)),
{
    let next = step_spec(lookup, module, limit, num_locals, depth, own, token)->Ok_0;
    match decode_spec(token, num_locals) {
        Err(_) => {},
        Ok(instruction) => match instruction {
            InstructionSpec::Ops(ops) => {
                lemma_graft_items(base, own, ops_items(ops));
            },
            InstructionSpec::IfTrue => {
                lemma_graft_push(base, own, new_frame(FrameKind::Then));
            },
            InstructionSpec::WhileTrue => {
                lemma_graft_push(base, own, new_frame(FrameKind::While));
            },
            InstructionSpec::Repeat(count) => {
                lemma_graft_push(base, own, new_frame(FrameKind::Repeat(count)));
            },
            InstructionSpec::Else => {
                assert(own.len() > 1);
                lemma_graft_inner(base, own);
                lemma_graft_push(
                    base,
                    own.drop_last(),
                    FrameSpec {
                        kind: FrameKind::Else,
                        items: Seq::empty(),
                        saved: own.last().items,
                    },
                );
            },
            InstructionSpec::End => {
                assert(own.len() > 1);
                lemma_graft_inner(base, own);
                let top = own.last();
                let rest = own.drop_last();
                assert(well_stacked(rest));
                lemma_graft_items(base, rest, closing_items(top));
            },
            InstructionSpec::Exec { module: target, name } => {
                match callee_spec(lookup, module, limit, target, name, depth) {
                    Ok(items) => {
                        lemma_graft_items(base, own, items);
                    },
                    Err(_) => {},
                }
            },
            _ => {},
        },
    }
}

/// Tokens that are read without error with only a body's own frames open are read alike
/// with other frames open below them.
proof fn lemma_run_in_place(
    lookup: spec_fn(Seq<u8>) -> Option<NamedModuleSpec>,
    module: ModuleSpec,
    limit: nat,
    num_locals: u32,
    depth: nat,
    base: Seq<FrameSpec>,
    tokens: Seq<Seq<char>>,
)
    requires
        base.len() > 0,
        run_from(
            lookup,
            module,
            limit,
            num_locals,
            depth,
            seq![new_frame(FrameKind::Root)],
            tokens,
        ) is Ok,
    ensures
        well_stacked(
            run_from(
                lookup,
                module,
                limit,
                num_locals,
                depth,
                seq![new_frame(FrameKind::Root)],
                tokens,
            )->Ok_0,
        ),
        run_from(lookup, module, limit, num_locals, depth, base, tokens) == Ok::<
            Seq<FrameSpec>,
            ErrorSpec,
        >(
            graft(
                base,
                run_from(
                    lookup,
                    module,
                    limit,
                    num_locals,
                    depth,
                    seq![new_frame(FrameKind::Root)],
                    tokens,
                )->Ok_0,
            ),
        ),
    decreases tokens.len(),
{
    let root = seq![new_frame(FrameKind::Root)];
    if tokens.len() == 0 {
        lemma_graft_root(base);
    } else {
        let front = tokens.drop_last();
        lemma_run_in_place(lookup, module, limit, num_locals, depth, base, front);
        let own = run_from(lookup, module, limit, num_locals, depth, root, front)->Ok_0;
        lemma_step_in_place(lookup, module, limit, num_locals, depth, base, own, tokens.last());
    }
}

/// The items of a body with a call are the items of the body with the tokens of the
/// callee in place of the call.
///
/// The call stands in a module whose only procedure is the callee, which has no locals;
/// the other body stands in a module without procedures; neither module has imports. The
/// tokens before and after the call do not call the callee.
proof fn lemma_build_in_place(
    lookup: spec_fn(Seq<u8>) -> Option<NamedModuleSpec>,
    with_callee: ModuleSpec,
    without: ModuleSpec,
    name: Seq<char>,
    body: Seq<Seq<char>>,
    before: Seq<Seq<char>>,
    call: Seq<char>,
    after: Seq<Seq<char>>,
    depth: nat,
)
    requires
        with_callee.imports.len() == 0,
        without.imports.len() == 0,
        without.local_procs.len() == 0,
        with_callee.local_procs == seq![
            ProcedureSpec { name, num_locals: 0, is_export: false, body },
        ],
        is_call_of(call, 0, name),
        forall|i: int| 0 <= i < before.len() ==> !is_call_of(#[trigger] before[i], 0, name),
        forall|i: int| 0 <= i < after.len() ==> !is_call_of(#[trigger] after[i], 0, name),
        build_spec(lookup, with_callee, 1, before.push(call) + after, 0, depth) is Ok,
    ensures
        build_spec(lookup, without, 0, before + body + after, 0, depth) == build_spec(
            lookup,
            with_callee,
            1,
            before.push(call) + after,
            0,
            depth,
        ),
{
    let root = seq![new_frame(FrameKind::Root)];
    let with_call = before.push(call) + after;
    let in_place = before + body + after;
    assert(with_callee.imports =~= without.imports);
    assert(with_callee.local_procs.take(1) == with_callee.local_procs);
    assert(with_callee.local_procs.take(0) =~= Seq::<ProcedureSpec>::empty());
    assert(without.local_procs.take(0) =~= Seq::<ProcedureSpec>::empty());
    assert(find_proc(Seq::<ProcedureSpec>::empty(), name) is None);

    // the body with the call, read in its module
    lemma_run_is_run_from_root(lookup, with_callee, 1, with_call, 0, depth, with_call.len());
    assert(with_call.take(with_call.len() as int) == with_call);
    lemma_run_in_a_row(lookup, with_callee, 1, 0, depth, root, before.push(call), after);
    assert(before.push(call).drop_last() == before);
    assert(before.push(call).last() == call);
    let at_call = run_from(lookup, with_callee, 1, 0, depth, root, before)->Ok_0;
    let behind_call = step_spec(lookup, with_callee, 1, 0, depth, at_call, call)->Ok_0;
    lemma_run_in_place(lookup, with_callee, 1, 0, depth, root, before);

    // the callee, read on its own
    assert(find_proc(with_callee.local_procs.take(1), name) == Some(0int));
    let items = build_spec(lookup, with_callee, 0, body, 0, depth)->Ok_0;
    assert(callee_spec(lookup, with_callee, 1, None, name, depth) == Ok::<
        Seq<ItemSpec>,
        ErrorSpec,
    >(framed(0, items)));
    assert(behind_call == push_items(at_call, items));
    lemma_run_is_run_from_root(lookup, with_callee, 0, body, 0, depth, body.len());
    assert(body.take(body.len() as int) == body);
    let own = run_from(lookup, with_callee, 0, 0, depth, root, body)->Ok_0;
    assert(finish(own) == Ok::<Seq<ItemSpec>, ErrorSpec>(items));
    assert forall|i: int| 0 <= i < body.len() implies !calls_defined(
        #[trigger] body[i],
        0,
        with_callee,
        0,
    ) && !calls_defined(body[i], 0, without, 0) by {}
    lemma_run_without_defined_calls(lookup, with_callee, 0, without, 0, 0, depth, root, body);

    // the other body, read in its module
    assert forall|i: int| 0 <= i < before.len() implies !calls_defined(
        #[trigger] before[i],
        0,
        with_callee,
        1,
    ) && !calls_defined(before[i], 0, without, 0) by {
        lemma_only_callee_defined(with_callee, name, body, before[i]);
    }
    assert forall|i: int| 0 <= i < after.len() implies !calls_defined(
        #[trigger] after[i],
        0,
        with_callee,
        1,
    ) && !calls_defined(after[i], 0, without, 0) by {
        lemma_only_callee_defined(with_callee, name, body, after[i]);
    }
    lemma_run_without_defined_calls(lookup, with_callee, 1, without, 0, 0, depth, root, before);
    lemma_run_in_place(lookup, without, 0, 0, depth, at_call, body);
    lemma_graft_single(at_call, own);
    lemma_run_in_a_row(lookup, without, 0, 0, depth, root, before, body);
    lemma_run_in_a_row(lookup, without, 0, 0, depth, root, before + body, after);
    lemma_run_without_defined_calls(
        lookup,
        with_callee,
        1,
        without,
        0,
        0,
        depth,
        behind_call,
        after,
    );
    lemma_run_is_run_from_root(lookup, without, 0, in_place, 0, depth, in_place.len());
    assert(in_place.take(in_place.len() as int) == in_place);
}

/// In a module whose only procedure is `name`, a token that calls a procedure of the
/// module calls `name`.
proof fn lemma_only_callee_defined(
    module: ModuleSpec,
    name: Seq<char>,
    body: Seq<Seq<char>>,
    token: Seq<char>,
)
    requires
        module.local_procs == seq![ProcedureSpec { name, num_locals: 0, is_export: false, body }],
        !is_call_of(token, 0, name),
    ensures
        !calls_defined(token, 0, module, 1),
{
    assert(module.local_procs.take(1) == module.local_procs);
    match decode_spec(token, 0) {
        Ok(InstructionSpec::Exec { module: None, name: called }) => {
            assert(called != name);
            assert(find_proc(module.local_procs, called) is None) by {
                reveal_with_fuel(find_proc_from, 3);
            }
        },
        _ => {},
    }
}

/// A token that decodes to a declaration starts one.
proof fn lemma_declarations_declare(token: Seq<char>)
    requires
        decode_spec(token, 0) matches Ok(instruction) && (instruction is Begin
            || instruction is Proc),
    ensures
        declares(token),
{
}

/// The source of a program whose only procedure is called once, as tokens: the procedure,
/// then the program body with the call between `before` and `after`.
pub open spec fn program_with_call(
    header: Seq<char>,
    body: Seq<Seq<char>>,
    end: Seq<char>,
    begin: Seq<char>,
    before: Seq<Seq<char>>,
    call: Seq<char>,
    after: Seq<Seq<char>>,
) -> Seq<Seq<char>> {
    seq![header] + body.push(end) + seq![begin] + (before.push(call) + after).push(end)
}

/// The source of the same program without the procedure, as tokens: the program body with
/// the tokens of the procedure's body between `before` and `after`.
pub open spec fn program_in_place(
    body: Seq<Seq<char>>,
    end: Seq<char>,
    begin: Seq<char>,
    before: Seq<Seq<char>>,
    after: Seq<Seq<char>>,
) -> Seq<Seq<char>> {
    seq![begin] + (before + body + after).push(end)
}

/// Inlining is structural: a valid program that calls its only procedure, which has no
/// locals, at one place compiles to the same program as the source that holds the tokens
/// of the procedure's body at that place instead of the call.
///
/// `header` is the token that declares the procedure `name`, `body` its complete body,
/// and `call` the token that calls it; `begin` and `end` are the tokens that open the
/// program body and close a body.
pub proof fn lemma_inlining_is_structural(
    lookup: spec_fn(Seq<u8>) -> Option<NamedModuleSpec>,
    name: Seq<char>,
    header: Seq<char>,
    body: Seq<Seq<char>>,
    end: Seq<char>,
    begin: Seq<char>,
    before: Seq<Seq<char>>,
    call: Seq<char>,
    after: Seq<Seq<char>>,
)
    requires
        decode_spec(header, 0) == Ok::<InstructionSpec, ErrorSpec>(
            InstructionSpec::Proc { label: name, num_locals: 0, is_export: false },
        ),
        decode_spec(begin, 0) == Ok::<InstructionSpec, ErrorSpec>(InstructionSpec::Begin),
        decode_spec(end, 0) == Ok::<InstructionSpec, ErrorSpec>(InstructionSpec::End),
        is_call_of(call, 0, name),
        is_body(body, end, 0),
        forall|i: int| 0 <= i < before.len() ==> !is_call_of(#[trigger] before[i], 0, name),
        forall|i: int| 0 <= i < after.len() ==> !is_call_of(#[trigger] after[i], 0, name),
        compile_tokens(lookup, program_with_call(header, body, end, begin, before, call, after))
            is Ok,
    ensures
        compile_tokens(lookup, program_in_place(body, end, begin, before, after))
            == compile_tokens(
            lookup,
            program_with_call(header, body, end, begin, before, call, after),
        ),
{
    let with_call = before.push(call) + after;
    let in_place = before + body + after;
    let source = program_with_call(header, body, end, begin, before, call, after);
    let other = program_in_place(body, end, begin, before, after);
    let callee = ProcedureSpec { name, num_locals: 0, is_export: false, body };
    let declared = ModuleSpec { local_procs: seq![callee], ..empty_module() };
    lemma_declarations_declare(header);
    lemma_declarations_declare(begin);

    // the procedure ends at the `end` behind its body
    let behind_header = body.push(end) + (seq![begin] + with_call.push(end));
    assert(source.subrange(1, source.len() as int) == behind_header);
    assert(behind_header.subrange(0, behind_header.len() as int) == behind_header);
    lemma_scan_stops_at_end(
        body.push(end),
        seq![begin] + with_call.push(end),
        0,
        Seq::empty(),
        false,
        BlockKind::Proc,
        0,
    );
    lemma_scan_looks_ahead(
        source,
        1,
        behind_header,
        0,
        Seq::empty(),
        false,
        BlockKind::Proc,
        0,
    );
    assert(source[0] == header);
    assert(!has_proc(empty_module().local_procs, name));
    assert(source.subrange(1, body.len() as int + 1) == body);
    assert(empty_module().local_procs.push(callee) == seq![callee]);
    let at_begin: int = body.len() as int + 2;
    assert(parse_tokens(source) == parse_from(source, at_begin, declared));

    // the program body ends at the last token
    assert(source[at_begin] == begin);
    assert(!has_export(declared.local_procs));
    let found = scan_spec(source, at_begin + 1, Seq::empty(), false, BlockKind::Begin, 0);
    assert(found is Ok);
    assert(found->Ok_0 == source.len() - 1);
    assert(source.subrange(at_begin + 1, source.len() - 1) == with_call);
    assert(source.subrange(at_begin + 1, source.len() as int) == with_call.push(end));
    assert(with_call.push(end).subrange(0, with_call.len() as int + 1) == with_call.push(end));
    lemma_scan_looks_ahead(
        source,
        at_begin + 1,
        with_call.push(end),
        0,
        Seq::empty(),
        false,
        BlockKind::Begin,
        0,
    );
    let program = ModuleSpec { body: Some(with_call), ..declared };
    assert(parse_tokens(source) == Ok::<ModuleSpec, ErrorSpec>(program));

    // so does the body with the procedure's tokens in place of the call
    assert(with_call.push(end) == before.push(call) + after.push(end));
    assert(in_place.push(end) == before + body + after.push(end));
    lemma_scan_with_body_in_place(
        before,
        call,
        body,
        end,
        after.push(end),
        0,
        Seq::empty(),
        false,
        BlockKind::Begin,
        0,
        with_call.len() as int,
    );
    assert(other[0] == begin);
    assert(other.subrange(1, other.len() as int) == in_place.push(end));
    assert(in_place.push(end).subrange(0, in_place.len() as int + 1) == in_place.push(end));
    lemma_scan_looks_ahead(
        other,
        1,
        in_place.push(end),
        0,
        Seq::empty(),
        false,
        BlockKind::Begin,
        0,
    );
    assert(!has_export(empty_module().local_procs));
    assert(other.subrange(1, other.len() - 1) == in_place);
    let inlined = ModuleSpec { body: Some(in_place), ..empty_module() };
    assert(parse_tokens(other) == Ok::<ModuleSpec, ErrorSpec>(inlined));

    // and the two bodies have the same items
    lemma_build_in_place(
        lookup,
        program,
        inlined,
        name,
        body,
        before,
        call,
        after,
        MAX_IMPORT_DEPTH as nat,
    );
}

/// Whether `sep` does not occur in `s`.
pub open spec fn free_of(s: Seq<char>, sep: char) -> bool {
    forall|i: int| 0 <= i < s.len() ==> #[trigger] s[i] != sep
}

/// A text without the separator is a single piece.
proof fn lemma_split_plain(s: Seq<char>, sep: char)
    requires
        free_of(s, sep),
    ensures
        split_state(s, sep) == (Seq::<Seq<char>>::empty(), s),
        split(s, sep) == seq![s],
    decreases s.len(),
{
    if s.len() > 0 {
        assert(free_of(s.drop_last(), sep)) by {
            assert forall|i: int| 0 <= i < s.drop_last().len() implies #[trigger] s.drop_last()[i]
                != sep by {
                assert(s.drop_last()[i] == s[i]);
            }
        }
        lemma_split_plain(s.drop_last(), sep);
        assert(s.last() == s[s.len() - 1]);
        assert(s.drop_last().push(s.last()) == s);
    } else {
        assert(s == Seq::<char>::empty());
    }
    assert(split(s, sep) =~= seq![s]);
}

/// Two texts without the separator, joined by it, are two pieces.
proof fn lemma_split_pair(first: Seq<char>, second: Seq<char>, sep: char)
    requires
        free_of(first, sep),
        free_of(second, sep),
    ensures
        split_state(first.push(sep) + second, sep) == (seq![first], second),
        split(first.push(sep) + second, sep) == seq![first, second],
    decreases second.len(),
{
    let joined = first.push(sep) + second;
    if second.len() == 0 {
        assert(joined == first.push(sep));
        assert(joined.drop_last() == first);
        lemma_split_plain(first, sep);
        assert(second == Seq::<char>::empty());
        assert(Seq::<Seq<char>>::empty().push(first) == seq![first]);
    } else {
        let front = second.drop_last();
        assert(free_of(front, sep)) by {
            assert forall|i: int| 0 <= i < front.len() implies #[trigger] front[i] != sep by {
                assert(front[i] == second[i]);
            }
        }
        lemma_split_pair(first, front, sep);
        assert(joined.drop_last() == first.push(sep) + front);
        assert(joined.last() == second[second.len() - 1]);
        assert(front.push(second.last()) == second);
    }
    assert(split(joined, sep) =~= seq![first, second]);
}

/// A label holds neither a dot nor a colon.
proof fn lemma_label_is_plain(name: Seq<char>)
    requires
        is_label(name),
    ensures
        free_of(name, '.'),
        free_of(name, ':'),
{
    assert forall|i: int| 0 <= i < name.len() implies #[trigger] name[i] != '.' && name[i]
        != ':' by {
        assert(is_label_char(name[i]));
    }
}

/// The token that opens the program body.
pub open spec fn begin_token() -> Seq<char> {
    "begin"@
}

/// The token that closes a body.
pub open spec fn end_token() -> Seq<char> {
    "end"@
}

/// The token that declares the procedure `name` without locals.
pub open spec fn proc_token(name: Seq<char>) -> Seq<char> {
    "proc."@ + name
}

/// The token that calls the procedure `name` of the module that it stands in.
pub open spec fn exec_token(name: Seq<char>) -> Seq<char> {
    "exec."@ + name
}

/// What the keywords say.
proof fn lemma_keywords_decode(name: Seq<char>)
    requires
        is_label(name),
    ensures
        decode_spec(begin_token(), 0) == Ok::<InstructionSpec, ErrorSpec>(InstructionSpec::Begin),
        decode_spec(end_token(), 0) == Ok::<InstructionSpec, ErrorSpec>(InstructionSpec::End),
        decode_spec(proc_token(name), 0) == Ok::<InstructionSpec, ErrorSpec>(
            InstructionSpec::Proc { label: name, num_locals: 0, is_export: false },
        ),
        is_call_of(exec_token(name), 0, name),
{
    reveal_strlit("begin");
    reveal_strlit("end");
    reveal_strlit("else");
    reveal_strlit("if");
    reveal_strlit("while");
    reveal_strlit("repeat");
    reveal_strlit("proc");
    reveal_strlit("export");
    reveal_strlit("use");
    reveal_strlit("exec");
    reveal_strlit("proc.");
    reveal_strlit("exec.");
    lemma_label_is_plain(name);
    lemma_split_plain("begin"@, '.');
    lemma_split_plain("end"@, '.');
    assert("proc."@ == "proc"@.push('.'));
    assert("exec."@ == "exec"@.push('.'));
    lemma_split_pair("proc"@, name, '.');
    lemma_split_pair("exec"@, name, '.');
    lemma_split_plain(name, ':');
    assert(split(proc_token(name), '.')[0] == "proc"@);
    assert(split(exec_token(name), '.')[0] == "exec"@);
    assert("proc"@[0] == 'p');
    assert("exec"@[0] == 'e' && "exec"@[1] == 'x');
    assert("end"@[1] == 'n');
    assert("else"@[1] == 'l');
    assert("export"@.len() == 6);
}

/// Inlining is structural, in terms of source tokens: a valid program
/// `proc.f A end begin B exec.f C end` compiles to the same program as
/// `begin B A C end`, where `A` is a complete body and `B` and `C` do not call `f`.
pub proof fn lemma_inlining_of_source(
    lookup: spec_fn(Seq<u8>) -> Option<NamedModuleSpec>,
    name: Seq<char>,
    body: Seq<Seq<char>>,
    before: Seq<Seq<char>>,
    after: Seq<Seq<char>>,
)
    requires
        is_label(name),
        is_body(body, end_token(), 0),
        forall|i: int| 0 <= i < before.len() ==> !is_call_of(#[trigger] before[i], 0, name),
        forall|i: int| 0 <= i < after.len() ==> !is_call_of(#[trigger] after[i], 0, name),
        compile_tokens(
            lookup,
            program_with_call(
                proc_token(name),
                body,
                end_token(),
                begin_token(),
                before,
                exec_token(name),
                after,
            ),
        ) is Ok,
    ensures
        compile_tokens(
            lookup,
            program_in_place(body, end_token(), begin_token(), before, after),
        ) == compile_tokens(
            lookup,
            program_with_call(
                proc_token(name),
                body,
                end_token(),
                begin_token(),
                before,
                exec_token(name),
                after,
            ),
        ),
{
    lemma_keywords_decode(name);
    lemma_inlining_is_structural(
        lookup,
        name,
        proc_token(name),
        body,
        end_token(),
        begin_token(),
        before,
        exec_token(name),
        after,
    );
}

} // verus!
