use miden::blocks::{CodeBlock, Join, Loop, Span, Split};
use miden::hasher::Digest;
use miden::operation::Operation;
use miden_crypto::hash::rpo::{Rpo256, RpoDigest};
use miden_crypto::{Felt, StarkField};

fn rpo(digest: Digest) -> RpoDigest {
    RpoDigest::new(digest.elements.map(Felt::new))
}

fn elements(digest: RpoDigest) -> [u64; 4] {
    [digest[0].as_int(), digest[1].as_int(), digest[2].as_int(), digest[3].as_int()]
}

fn span(ops: &[Operation]) -> CodeBlock {
    CodeBlock::new_span(ops.to_vec())
}

#[test]
fn span_digest_hashes_opcodes_and_immediates() {
    let block = Span::new(vec![Operation::Add, Operation::Push(7), Operation::Noop]);
    let expected = Rpo256::hash_elements(&[
        Felt::new(0b0010_0010),
        Felt::new(0b0110_0100),
        Felt::new(7),
        Felt::new(0),
    ]);
    assert_eq!(elements(expected), block.hash().elements);
    assert_eq!(3, block.ops().len());
    let other = Span::new(vec![Operation::Add, Operation::Push(8), Operation::Noop]);
    assert_ne!(block.hash(), other.hash());
}

#[test]
fn join_digest_merges_its_children_in_the_join_domain() {
    let first = span(&[Operation::Add]);
    let second = span(&[Operation::Mul]);
    let expected =
        Rpo256::merge_in_domain(&[rpo(first.hash()), rpo(second.hash())], Felt::new(0b0101_0101));
    let first_digest = first.hash();
    let second_digest = second.hash();
    let join = Join::new(first, second);
    assert_eq!(elements(expected), join.hash().elements);
    assert_ne!(first_digest, join.hash());
    assert_eq!(first_digest, join.first().hash());
    assert_eq!(second_digest, join.second().hash());
    assert_eq!(0b0101_0101, Join::domain());
    assert_eq!(Operation::Join.op_code() as u64, Join::domain());
}

#[test]
fn join_digest_depends_on_the_order_of_its_children() {
    let forward = Join::new(span(&[Operation::Add]), span(&[Operation::Mul]));
    let backward = Join::new(span(&[Operation::Mul]), span(&[Operation::Add]));
    assert_ne!(forward.hash(), backward.hash());
}

#[test]
fn split_and_loop_digests_use_their_own_domains() {
    let a = span(&[Operation::Add]);
    let b = span(&[Operation::Mul]);
    let a_digest = a.hash();
    let b_digest = b.hash();
    let split = Split::new(a.duplicate(), b.duplicate());
    let expected = Rpo256::merge_in_domain(&[rpo(a_digest), rpo(b_digest)], Felt::new(0b0101_0110));
    assert_eq!(elements(expected), split.hash().elements);
    assert_eq!(a_digest, split.on_true().hash());
    assert_eq!(b_digest, split.on_false().hash());
    assert_eq!(0b0101_0110, Split::domain());
    let join = Join::new(a.duplicate(), b);
    assert_ne!(join.hash(), split.hash());
    let looped = Loop::new(a);
    let expected =
        Rpo256::merge_in_domain(&[rpo(a_digest), RpoDigest::default()], Felt::new(0b0101_0111));
    assert_eq!(elements(expected), looped.hash().elements);
    assert_eq!(a_digest, looped.body().hash());
    assert_eq!(0b0101_0111, Loop::domain());
    assert_eq!([0, 0, 0, 0], Digest::zero().elements);
}

#[test]
fn blocks_print_in_the_documented_forms() {
    let a = span(&[Operation::Pad, Operation::Incr, Operation::Push(2)]);
    assert_eq!("span pad incr push(2) end", a.to_string());
    let b = span(&[Operation::Noop]);
    let join = CodeBlock::new_join(a.duplicate(), b.duplicate());
    assert_eq!("join span pad incr push(2) end span noop end end", join.to_string());
    let split = CodeBlock::new_split(a.duplicate(), b.duplicate());
    assert_eq!("if.true span pad incr push(2) end else span noop end end", split.to_string());
    let looped = CodeBlock::new_loop(b);
    assert_eq!("while.true span noop end end", looped.to_string());
}

#[test]
fn copies_of_blocks_are_equal_and_independent() {
    let block = CodeBlock::new_join(
        span(&[Operation::Add]),
        CodeBlock::new_loop(span(&[Operation::Push(3)])),
    );
    let copy = block.duplicate();
    assert_eq!(block.to_string(), copy.to_string());
    assert_eq!(block.hash(), copy.hash());
    drop(block);
    assert_eq!("join span add end while.true span push(3) end end end", copy.to_string());
}

#[test]
fn operations_know_their_codes_and_texts() {
    let mut buf = Vec::new();
    Operation::Push(18446744069414584320).write_text(&mut buf);
    assert_eq!("push(18446744069414584320)", buf.iter().collect::<String>());
    let mut buf = Vec::new();
    Operation::FmpUpdate.write_text(&mut buf);
    assert_eq!("fmpupdate", buf.iter().collect::<String>());
    assert_eq!(0, Operation::Noop.op_code());
    assert_eq!(0b0110_0100, Operation::Push(1).op_code());
    assert_eq!(Some(9), Operation::Push(9).imm_value());
    assert_eq!(None, Operation::Add.imm_value());
}
