//! The instruction set: the mnemonics of the assembly language and the operations that
//! each lowers to.

use crate::hasher::MODULUS;
use crate::operation::Operation;
use crate::text::eq_lit;
use vstd::prelude::*;

verus! {

/// Whether an instruction takes a parameter.
#[derive(Clone, Copy, Debug, PartialEq, Eq, Structural)]
pub enum ParamRule {
    /// The instruction takes no parameter.
    Forbidden,
    /// The instruction can be written with or without a parameter.
    Optional,
    /// The instruction needs a parameter.
    Required,
}

/// The mnemonics of the instructions that lower to operations.
#[derive(Clone, Copy, Debug, PartialEq, Eq, Structural)]
pub enum Mnemonic {
    /// `assert`
    Assert,
    /// `assertz`
    Assertz,
    /// `assert_eq`
    AssertEq,
    /// `add`
    Add,
    /// `sub`
    Sub,
    /// `mul`
    Mul,
    /// `div`
    Div,
    /// `neg`
    Neg,
    /// `inv`
    Inv,
    /// `not`
    Not,
    /// `and`
    And,
    /// `or`
    Or,
    /// `neq`
    Neq,
    /// `drop`
    Drop,
    /// `dropw`
    Dropw,
    /// `padw`
    Padw,
    /// `cswap`
    Cswap,
    /// `cswapw`
    Cswapw,
    /// `cdrop`
    Cdrop,
    /// `cdropw`
    Cdropw,
    /// `sdepth`
    Sdepth,
    /// `adv_loadw`
    AdvLoadw,
    /// `u32split`
    U32Split,
    /// `u32wrapping_add`
    U32WrappingAdd,
    /// `u32overflowing_add`
    U32OverflowingAdd,
    /// `u32wrapping_add3`
    U32WrappingAdd3,
    /// `u32overflowing_add3`
    U32OverflowingAdd3,
    /// `u32wrapping_sub`
    U32WrappingSub,
    /// `u32overflowing_sub`
    U32OverflowingSub,
    /// `u32wrapping_mul`
    U32WrappingMul,
    /// `u32overflowing_mul`
    U32OverflowingMul,
    /// `u32wrapping_madd`
    U32WrappingMadd,
    /// `u32overflowing_madd`
    U32OverflowingMadd,
    /// `u32unchecked_div`
    U32UncheckedDiv,
    /// `u32unchecked_mod`
    U32UncheckedMod,
    /// `u32unchecked_divmod`
    U32UncheckedDivmod,
    /// `u32checked_and`
    U32CheckedAnd,
    /// `u32checked_xor`
    U32CheckedXor,
    /// `eq`
    Eq,
    /// `dup`
    Dup,
    /// `swap`
    Swap,
    /// `swapw`
    Swapw,
    /// `mem_load`
    MemLoad,
    /// `mem_store`
    MemStore,
    /// `mem_loadw`
    MemLoadw,
    /// `mem_storew`
    MemStorew,
    /// `push`
    Push,
    /// `movup`
    Movup,
    /// `movdn`
    Movdn,
    /// `adv_push`
    AdvPush,
    /// `loc_load`
    LocLoad,
    /// `loc_store`
    LocStore,
    /// `loc_loadw`
    LocLoadw,
    /// `loc_storew`
    LocStorew,
}

/// The mnemonic that a word spells, if it spells one.
pub open spec fn mnemonic_of(word: Seq<char>) -> Option<Mnemonic> {
    if word == "assert"@ {
        Some(Mnemonic::Assert)
    } else if word == "assertz"@ {
        Some(Mnemonic::Assertz)
    } else if word == "assert_eq"@ {
        Some(Mnemonic::AssertEq)
    } else if word == "add"@ {
        Some(Mnemonic::Add)
    } else if word == "sub"@ {
        Some(Mnemonic::Sub)
    } else if word == "mul"@ {
        Some(Mnemonic::Mul)
    } else if word == "div"@ {
        Some(Mnemonic::Div)
    } else if word == "neg"@ {
        Some(Mnemonic::Neg)
    } else if word == "inv"@ {
        Some(Mnemonic::Inv)
    } else if word == "not"@ {
        Some(Mnemonic::Not)
    } else if word == "and"@ {
        Some(Mnemonic::And)
    } else if word == "or"@ {
        Some(Mnemonic::Or)
    } else if word == "neq"@ {
        Some(Mnemonic::Neq)
    } else if word == "drop"@ {
        Some(Mnemonic::Drop)
    } else if word == "dropw"@ {
        Some(Mnemonic::Dropw)
    } else if word == "padw"@ {
        Some(Mnemonic::Padw)
    } else if word == "cswap"@ {
        Some(Mnemonic::Cswap)
    } else if word == "cswapw"@ {
        Some(Mnemonic::Cswapw)
    } else if word == "cdrop"@ {
        Some(Mnemonic::Cdrop)
    } else if word == "cdropw"@ {
        Some(Mnemonic::Cdropw)
    } else if word == "sdepth"@ {
        Some(Mnemonic::Sdepth)
    } else if word == "adv_loadw"@ {
        Some(Mnemonic::AdvLoadw)
    } else if word == "u32split"@ {
        Some(Mnemonic::U32Split)
    } else if word == "u32wrapping_add"@ {
        Some(Mnemonic::U32WrappingAdd)
    } else if word == "u32overflowing_add"@ {
        Some(Mnemonic::U32OverflowingAdd)
    } else if word == "u32wrapping_add3"@ {
        Some(Mnemonic::U32WrappingAdd3)
    } else if word == "u32overflowing_add3"@ {
        Some(Mnemonic::U32OverflowingAdd3)
    } else if word == "u32wrapping_sub"@ {
        Some(Mnemonic::U32WrappingSub)
    } else if word == "u32overflowing_sub"@ {
        Some(Mnemonic::U32OverflowingSub)
    } else if word == "u32wrapping_mul"@ {
        Some(Mnemonic::U32WrappingMul)
    } else if word == "u32overflowing_mul"@ {
        Some(Mnemonic::U32OverflowingMul)
    } else if word == "u32wrapping_madd"@ {
        Some(Mnemonic::U32WrappingMadd)
    } else if word == "u32overflowing_madd"@ {
        Some(Mnemonic::U32OverflowingMadd)
    } else if word == "u32unchecked_div"@ {
        Some(Mnemonic::U32UncheckedDiv)
    } else if word == "u32unchecked_mod"@ {
        Some(Mnemonic::U32UncheckedMod)
    } else if word == "u32unchecked_divmod"@ {
        Some(Mnemonic::U32UncheckedDivmod)
    } else if word == "u32checked_and"@ {
        Some(Mnemonic::U32CheckedAnd)
    } else if word == "u32checked_xor"@ {
        Some(Mnemonic::U32CheckedXor)
    } else if word == "eq"@ {
        Some(Mnemonic::Eq)
    } else if word == "dup"@ {
        Some(Mnemonic::Dup)
    } else if word == "swap"@ {
        Some(Mnemonic::Swap)
    } else if word == "swapw"@ {
        Some(Mnemonic::Swapw)
    } else if word == "mem_load"@ {
        Some(Mnemonic::MemLoad)
    } else if word == "mem_store"@ {
        Some(Mnemonic::MemStore)
    } else if word == "mem_loadw"@ {
        Some(Mnemonic::MemLoadw)
    } else if word == "mem_storew"@ {
        Some(Mnemonic::MemStorew)
    } else if word == "push"@ {
        Some(Mnemonic::Push)
    } else if word == "movup"@ {
        Some(Mnemonic::Movup)
    } else if word == "movdn"@ {
        Some(Mnemonic::Movdn)
    } else if word == "adv_push"@ {
        Some(Mnemonic::AdvPush)
    } else if word == "loc_load"@ {
        Some(Mnemonic::LocLoad)
    } else if word == "loc_store"@ {
        Some(Mnemonic::LocStore)
    } else if word == "loc_loadw"@ {
        Some(Mnemonic::LocLoadw)
    } else if word == "loc_storew"@ {
        Some(Mnemonic::LocStorew)
    } else {
        None
    }
}

/// The operations that push the field element `value`.
pub open spec fn push_value_spec(value: u64) -> Seq<Operation> {
    if value == 0 {
        seq![Operation::Pad]
    } else if value == 1 {
        seq![Operation::Pad, Operation::Incr]
    } else {
        seq![Operation::Push(value)]
    }
}

/// The field element that a parameter stands for: its residue modulo the field's prime.
pub open spec fn to_element(value: u64) -> u64 {
    value % MODULUS
}

/// The field element that, added to the frame pointer, gives the address of the local
/// with the given index.
pub open spec fn local_offset(index: u64) -> u64
    recommends
        index <= u32::MAX,
{
    if index == 0 {
        0
    } else {
        (MODULUS - index) as u64
    }
}

/// The operation that copies the item at the given depth to the top, for the depths that
/// have one.
pub open spec fn dup_op(depth: u64) -> Operation {
    if depth == 0 {
        Operation::Dup0
    } else if depth == 1 {
        Operation::Dup1
    } else if depth == 2 {
        Operation::Dup2
    } else if depth == 3 {
        Operation::Dup3
    } else if depth == 4 {
        Operation::Dup4
    } else if depth == 5 {
        Operation::Dup5
    } else if depth == 6 {
        Operation::Dup6
    } else if depth == 7 {
        Operation::Dup7
    } else if depth == 9 {
        Operation::Dup9
    } else if depth == 11 {
        Operation::Dup11
    } else if depth == 13 {
        Operation::Dup13
    } else {
        Operation::Dup15
    }
}

/// The operation that moves the item at the given depth to the top.
pub open spec fn movup_op(depth: u64) -> Operation {
    if depth == 2 {
        Operation::MovUp2
    } else if depth == 3 {
        Operation::MovUp3
    } else if depth == 4 {
        Operation::MovUp4
    } else if depth == 5 {
        Operation::MovUp5
    } else if depth == 6 {
        Operation::MovUp6
    } else if depth == 7 {
        Operation::MovUp7
    } else {
        Operation::MovUp8
    }
}

/// The operation that moves the top item to the given depth.
pub open spec fn movdn_op(depth: u64) -> Operation {
    if depth == 2 {
        Operation::MovDn2
    } else if depth == 3 {
        Operation::MovDn3
    } else if depth == 4 {
        Operation::MovDn4
    } else if depth == 5 {
        Operation::MovDn5
    } else if depth == 6 {
        Operation::MovDn6
    } else if depth == 7 {
        Operation::MovDn7
    } else {
        Operation::MovDn8
    }
}

impl Mnemonic {
    /// Whether the instruction takes a parameter.
    pub open spec fn rule_spec(self) -> ParamRule {
        match self {
            Mnemonic::Assert => ParamRule::Forbidden,
            Mnemonic::Assertz => ParamRule::Forbidden,
            Mnemonic::AssertEq => ParamRule::Forbidden,
            Mnemonic::Add => ParamRule::Forbidden,
            Mnemonic::Sub => ParamRule::Forbidden,
            Mnemonic::Mul => ParamRule::Forbidden,
            Mnemonic::Div => ParamRule::Forbidden,
            Mnemonic::Neg => ParamRule::Forbidden,
            Mnemonic::Inv => ParamRule::Forbidden,
            Mnemonic::Not => ParamRule::Forbidden,
            Mnemonic::And => ParamRule::Forbidden,
            Mnemonic::Or => ParamRule::Forbidden,
            Mnemonic::Neq => ParamRule::Forbidden,
            Mnemonic::Drop => ParamRule::Forbidden,
            Mnemonic::Dropw => ParamRule::Forbidden,
            Mnemonic::Padw => ParamRule::Forbidden,
            Mnemonic::Cswap => ParamRule::Forbidden,
            Mnemonic::Cswapw => ParamRule::Forbidden,
            Mnemonic::Cdrop => ParamRule::Forbidden,
            Mnemonic::Cdropw => ParamRule::Forbidden,
            Mnemonic::Sdepth => ParamRule::Forbidden,
            Mnemonic::AdvLoadw => ParamRule::Forbidden,
            Mnemonic::U32Split => ParamRule::Forbidden,
            Mnemonic::U32WrappingAdd => ParamRule::Forbidden,
            Mnemonic::U32OverflowingAdd => ParamRule::Forbidden,
            Mnemonic::U32WrappingAdd3 => ParamRule::Forbidden,
            Mnemonic::U32OverflowingAdd3 => ParamRule::Forbidden,
            Mnemonic::U32WrappingSub => ParamRule::Forbidden,
            Mnemonic::U32OverflowingSub => ParamRule::Forbidden,
            Mnemonic::U32WrappingMul => ParamRule::Forbidden,
            Mnemonic::U32OverflowingMul => ParamRule::Forbidden,
            Mnemonic::U32WrappingMadd => ParamRule::Forbidden,
            Mnemonic::U32OverflowingMadd => ParamRule::Forbidden,
            Mnemonic::U32UncheckedDiv => ParamRule::Forbidden,
            Mnemonic::U32UncheckedMod => ParamRule::Forbidden,
            Mnemonic::U32UncheckedDivmod => ParamRule::Forbidden,
            Mnemonic::U32CheckedAnd => ParamRule::Forbidden,
            Mnemonic::U32CheckedXor => ParamRule::Forbidden,
            Mnemonic::Eq => ParamRule::Optional,
            Mnemonic::Dup => ParamRule::Optional,
            Mnemonic::Swap => ParamRule::Optional,
            Mnemonic::Swapw => ParamRule::Optional,
            Mnemonic::MemLoad => ParamRule::Optional,
            Mnemonic::MemStore => ParamRule::Optional,
            Mnemonic::MemLoadw => ParamRule::Optional,
            Mnemonic::MemStorew => ParamRule::Optional,
            Mnemonic::Push => ParamRule::Required,
            Mnemonic::Movup => ParamRule::Required,
            Mnemonic::Movdn => ParamRule::Required,
            Mnemonic::AdvPush => ParamRule::Required,
            Mnemonic::LocLoad => ParamRule::Required,
            Mnemonic::LocStore => ParamRule::Required,
            Mnemonic::LocLoadw => ParamRule::Required,
            Mnemonic::LocStorew => ParamRule::Required,
        }
    }

    /// The operations of the instruction written without a parameter. An instruction that
    /// needs a parameter has none.
    pub open spec fn plain_ops(self) -> Seq<Operation> {
        match self {
            Mnemonic::Assert => seq![Operation::Assert],
            Mnemonic::Assertz => seq![Operation::Eqz, Operation::Assert],
            Mnemonic::AssertEq => seq![Operation::Eq, Operation::Assert],
            Mnemonic::Add => seq![Operation::Add],
            Mnemonic::Sub => seq![Operation::Neg, Operation::Add],
            Mnemonic::Mul => seq![Operation::Mul],
            Mnemonic::Div => seq![Operation::Inv, Operation::Mul],
            Mnemonic::Neg => seq![Operation::Neg],
            Mnemonic::Inv => seq![Operation::Inv],
            Mnemonic::Not => seq![Operation::Not],
            Mnemonic::And => seq![Operation::And],
            Mnemonic::Or => seq![Operation::Or],
            Mnemonic::Neq => seq![Operation::Eq, Operation::Not],
            Mnemonic::Drop => seq![Operation::Drop],
            Mnemonic::Dropw => seq![Operation::Drop, Operation::Drop, Operation::Drop, Operation::Drop],
            Mnemonic::Padw => seq![Operation::Pad, Operation::Pad, Operation::Pad, Operation::Pad],
            Mnemonic::Cswap => seq![Operation::CSwap],
            Mnemonic::Cswapw => seq![Operation::CSwapW],
            Mnemonic::Cdrop => seq![Operation::CSwap, Operation::Drop],
            Mnemonic::Cdropw => seq![Operation::CSwapW, Operation::Drop, Operation::Drop, Operation::Drop, Operation::Drop],
            Mnemonic::Sdepth => seq![Operation::SDepth],
            Mnemonic::AdvLoadw => seq![Operation::ReadW],
            Mnemonic::U32Split => seq![Operation::U32split],
            Mnemonic::U32WrappingAdd => seq![Operation::U32add, Operation::Drop],
            Mnemonic::U32OverflowingAdd => seq![Operation::U32add],
            Mnemonic::U32WrappingAdd3 => seq![Operation::U32add3, Operation::Drop],
            Mnemonic::U32OverflowingAdd3 => seq![Operation::U32add3],
            Mnemonic::U32WrappingSub => seq![Operation::U32sub, Operation::Drop],
            Mnemonic::U32OverflowingSub => seq![Operation::U32sub],
            Mnemonic::U32WrappingMul => seq![Operation::U32mul, Operation::Drop],
            Mnemonic::U32OverflowingMul => seq![Operation::U32mul],
            Mnemonic::U32WrappingMadd => seq![Operation::U32madd, Operation::Drop],
            Mnemonic::U32OverflowingMadd => seq![Operation::U32madd],
            Mnemonic::U32UncheckedDiv => seq![Operation::U32div, Operation::Drop],
            Mnemonic::U32UncheckedMod => seq![Operation::U32div, Operation::Swap, Operation::Drop],
            Mnemonic::U32UncheckedDivmod => seq![Operation::U32div],
            Mnemonic::U32CheckedAnd => seq![Operation::U32and],
            Mnemonic::U32CheckedXor => seq![Operation::U32xor],
            Mnemonic::Eq => seq![Operation::Eq],
            Mnemonic::Dup => seq![Operation::Dup0],
            Mnemonic::Swap => seq![Operation::Swap],
            Mnemonic::Swapw => seq![Operation::SwapW],
            Mnemonic::MemLoad => seq![Operation::MLoad],
            Mnemonic::MemStore => seq![Operation::MStore, Operation::Drop],
            Mnemonic::MemLoadw => seq![Operation::MLoadW],
            Mnemonic::MemStorew => seq![Operation::MStoreW],
            _ => Seq::empty(),
        }
    }

    /// The operations of the instruction written with the parameter `value`, inside a
    /// procedure with `num_locals` locals; `None` if the instruction does not accept that
    /// parameter.
    pub open spec fn param_ops(self, value: u64, num_locals: u32) -> Option<Seq<Operation>> {
        match self {
            Mnemonic::Push => Some(push_value_spec(to_element(value))),
            Mnemonic::Eq => if to_element(value) == 0 {
                Some(seq![Operation::Eqz])
            } else {
                Some(push_value_spec(to_element(value)).push(Operation::Eq))
            },
            Mnemonic::Dup => if value > 15 {
                None
            } else if value == 8 || value == 10 || value == 12 || value == 14 {
                Some(seq![Operation::Pad, dup_op((value + 1) as u64), Operation::Add])
            } else {
                Some(seq![dup_op(value)])
            },
            Mnemonic::Swap => if value == 1 {
                Some(seq![Operation::Swap])
            } else {
                None
            },
            Mnemonic::Swapw => if value == 1 {
                Some(seq![Operation::SwapW])
            } else if value == 2 {
                Some(seq![Operation::SwapW2])
            } else if value == 3 {
                Some(seq![Operation::SwapW3])
            } else {
                None
            },
            Mnemonic::Movup => if 2 <= value <= 8 {
                Some(seq![movup_op(value)])
            } else {
                None
            },
            Mnemonic::Movdn => if 2 <= value <= 8 {
                Some(seq![movdn_op(value)])
            } else {
                None
            },
            Mnemonic::AdvPush => if 1 <= value <= 16 {
                Some(Seq::new(value as nat, |i: int| Operation::Read))
            } else {
                None
            },
            Mnemonic::MemLoad => Some(push_value_spec(to_element(value)).push(Operation::MLoad)),
            Mnemonic::MemStore => Some(
                push_value_spec(to_element(value)).push(Operation::MStore).push(Operation::Drop),
            ),
            Mnemonic::MemLoadw => Some(push_value_spec(to_element(value)).push(Operation::MLoadW)),
            Mnemonic::MemStorew => Some(
                push_value_spec(to_element(value)).push(Operation::MStoreW),
            ),
            Mnemonic::LocLoad => if value < num_locals {
                Some(
                    push_value_spec(local_offset(value)).push(Operation::FmpAdd).push(
                        Operation::MLoad,
                    ),
                )
            } else {
                None
            },
            Mnemonic::LocStore => if value < num_locals {
                Some(
                    push_value_spec(local_offset(value)).push(Operation::FmpAdd).push(
                        Operation::MStore,
                    ).push(Operation::Drop),
                )
            } else {
                None
            },
            Mnemonic::LocLoadw => if value < num_locals {
                Some(
                    push_value_spec(local_offset(value)).push(Operation::FmpAdd).push(
                        Operation::MLoadW,
                    ),
                )
            } else {
                None
            },
            Mnemonic::LocStorew => if value < num_locals {
                Some(
                    push_value_spec(local_offset(value)).push(Operation::FmpAdd).push(
                        Operation::MStoreW,
                    ),
                )
            } else {
                None
            },
            _ => None,
        }
    }

    /// Returns whether the instruction takes a parameter.
    pub fn rule(&self) -> (out: ParamRule)
        ensures
            out == self.rule_spec(),
    {
        match self {
            Mnemonic::Assert => ParamRule::Forbidden,
            Mnemonic::Assertz => ParamRule::Forbidden,
            Mnemonic::AssertEq => ParamRule::Forbidden,
            Mnemonic::Add => ParamRule::Forbidden,
            Mnemonic::Sub => ParamRule::Forbidden,
            Mnemonic::Mul => ParamRule::Forbidden,
            Mnemonic::Div => ParamRule::Forbidden,
            Mnemonic::Neg => ParamRule::Forbidden,
            Mnemonic::Inv => ParamRule::Forbidden,
            Mnemonic::Not => ParamRule::Forbidden,
            Mnemonic::And => ParamRule::Forbidden,
            Mnemonic::Or => ParamRule::Forbidden,
            Mnemonic::Neq => ParamRule::Forbidden,
            Mnemonic::Drop => ParamRule::Forbidden,
            Mnemonic::Dropw => ParamRule::Forbidden,
            Mnemonic::Padw => ParamRule::Forbidden,
            Mnemonic::Cswap => ParamRule::Forbidden,
            Mnemonic::Cswapw => ParamRule::Forbidden,
            Mnemonic::Cdrop => ParamRule::Forbidden,
            Mnemonic::Cdropw => ParamRule::Forbidden,
            Mnemonic::Sdepth => ParamRule::Forbidden,
            Mnemonic::AdvLoadw => ParamRule::Forbidden,
            Mnemonic::U32Split => ParamRule::Forbidden,
            Mnemonic::U32WrappingAdd => ParamRule::Forbidden,
            Mnemonic::U32OverflowingAdd => ParamRule::Forbidden,
            Mnemonic::U32WrappingAdd3 => ParamRule::Forbidden,
            Mnemonic::U32OverflowingAdd3 => ParamRule::Forbidden,
            Mnemonic::U32WrappingSub => ParamRule::Forbidden,
            Mnemonic::U32OverflowingSub => ParamRule::Forbidden,
            Mnemonic::U32WrappingMul => ParamRule::Forbidden,
            Mnemonic::U32OverflowingMul => ParamRule::Forbidden,
            Mnemonic::U32WrappingMadd => ParamRule::Forbidden,
            Mnemonic::U32OverflowingMadd => ParamRule::Forbidden,
            Mnemonic::U32UncheckedDiv => ParamRule::Forbidden,
            Mnemonic::U32UncheckedMod => ParamRule::Forbidden,
            Mnemonic::U32UncheckedDivmod => ParamRule::Forbidden,
            Mnemonic::U32CheckedAnd => ParamRule::Forbidden,
            Mnemonic::U32CheckedXor => ParamRule::Forbidden,
            Mnemonic::Eq => ParamRule::Optional,
            Mnemonic::Dup => ParamRule::Optional,
            Mnemonic::Swap => ParamRule::Optional,
            Mnemonic::Swapw => ParamRule::Optional,
            Mnemonic::MemLoad => ParamRule::Optional,
            Mnemonic::MemStore => ParamRule::Optional,
            Mnemonic::MemLoadw => ParamRule::Optional,
            Mnemonic::MemStorew => ParamRule::Optional,
            Mnemonic::Push => ParamRule::Required,
            Mnemonic::Movup => ParamRule::Required,
            Mnemonic::Movdn => ParamRule::Required,
            Mnemonic::AdvPush => ParamRule::Required,
            Mnemonic::LocLoad => ParamRule::Required,
            Mnemonic::LocStore => ParamRule::Required,
            Mnemonic::LocLoadw => ParamRule::Required,
            Mnemonic::LocStorew => ParamRule::Required,
        }
    }

    /// Appends to `ops` the operations of the instruction written without a parameter.
    pub fn lower_plain(&self, ops: &mut Vec<Operation>)
        ensures
            final(ops)@ == old(ops)@ + self.plain_ops(),
    {
        match self {
            Mnemonic::Assert => {
                ops.push(Operation::Assert);
            },
            Mnemonic::Assertz => {
                ops.push(Operation::Eqz);
                ops.push(Operation::Assert);
            },
            Mnemonic::AssertEq => {
                ops.push(Operation::Eq);
                ops.push(Operation::Assert);
            },
            Mnemonic::Add => {
                ops.push(Operation::Add);
            },
            Mnemonic::Sub => {
                ops.push(Operation::Neg);
                ops.push(Operation::Add);
            },
            Mnemonic::Mul => {
                ops.push(Operation::Mul);
            },
            Mnemonic::Div => {
                ops.push(Operation::Inv);
                ops.push(Operation::Mul);
            },
            Mnemonic::Neg => {
                ops.push(Operation::Neg);
            },
            Mnemonic::Inv => {
                ops.push(Operation::Inv);
            },
            Mnemonic::Not => {
                ops.push(Operation::Not);
            },
            Mnemonic::And => {
                ops.push(Operation::And);
            },
            Mnemonic::Or => {
                ops.push(Operation::Or);
            },
            Mnemonic::Neq => {
                ops.push(Operation::Eq);
                ops.push(Operation::Not);
            },
            Mnemonic::Drop => {
                ops.push(Operation::Drop);
            },
            Mnemonic::Dropw => {
                ops.push(Operation::Drop);
                ops.push(Operation::Drop);
                ops.push(Operation::Drop);
                ops.push(Operation::Drop);
            },
            Mnemonic::Padw => {
                ops.push(Operation::Pad);
                ops.push(Operation::Pad);
                ops.push(Operation::Pad);
                ops.push(Operation::Pad);
            },
            Mnemonic::Cswap => {
                ops.push(Operation::CSwap);
            },
            Mnemonic::Cswapw => {
                ops.push(Operation::CSwapW);
            },
            Mnemonic::Cdrop => {
                ops.push(Operation::CSwap);
                ops.push(Operation::Drop);
            },
            Mnemonic::Cdropw => {
                ops.push(Operation::CSwapW);
                ops.push(Operation::Drop);
                ops.push(Operation::Drop);
                ops.push(Operation::Drop);
                ops.push(Operation::Drop);
            },
            Mnemonic::Sdepth => {
                ops.push(Operation::SDepth);
            },
            Mnemonic::AdvLoadw => {
                ops.push(Operation::ReadW);
            },
            Mnemonic::U32Split => {
                ops.push(Operation::U32split);
            },
            Mnemonic::U32WrappingAdd => {
                ops.push(Operation::U32add);
                ops.push(Operation::Drop);
            },
            Mnemonic::U32OverflowingAdd => {
                ops.push(Operation::U32add);
            },
            Mnemonic::U32WrappingAdd3 => {
                ops.push(Operation::U32add3);
                ops.push(Operation::Drop);
            },
            Mnemonic::U32OverflowingAdd3 => {
                ops.push(Operation::U32add3);
            },
            Mnemonic::U32WrappingSub => {
                ops.push(Operation::U32sub);
                ops.push(Operation::Drop);
            },
            Mnemonic::U32OverflowingSub => {
                ops.push(Operation::U32sub);
            },
            Mnemonic::U32WrappingMul => {
                ops.push(Operation::U32mul);
                ops.push(Operation::Drop);
            },
            Mnemonic::U32OverflowingMul => {
                ops.push(Operation::U32mul);
            },
            Mnemonic::U32WrappingMadd => {
                ops.push(Operation::U32madd);
                ops.push(Operation::Drop);
            },
            Mnemonic::U32OverflowingMadd => {
                ops.push(Operation::U32madd);
            },
            Mnemonic::U32UncheckedDiv => {
                ops.push(Operation::U32div);
                ops.push(Operation::Drop);
            },
            Mnemonic::U32UncheckedMod => {
                ops.push(Operation::U32div);
                ops.push(Operation::Swap);
                ops.push(Operation::Drop);
            },
            Mnemonic::U32UncheckedDivmod => {
                ops.push(Operation::U32div);
            },
            Mnemonic::U32CheckedAnd => {
                ops.push(Operation::U32and);
            },
            Mnemonic::U32CheckedXor => {
                ops.push(Operation::U32xor);
            },
            Mnemonic::Eq => {
                ops.push(Operation::Eq);
            },
            Mnemonic::Dup => {
                ops.push(Operation::Dup0);
            },
            Mnemonic::Swap => {
                ops.push(Operation::Swap);
            },
            Mnemonic::Swapw => {
                ops.push(Operation::SwapW);
            },
            Mnemonic::MemLoad => {
                ops.push(Operation::MLoad);
            },
            Mnemonic::MemStore => {
                ops.push(Operation::MStore);
                ops.push(Operation::Drop);
            },
            Mnemonic::MemLoadw => {
                ops.push(Operation::MLoadW);
            },
            Mnemonic::MemStorew => {
                ops.push(Operation::MStoreW);
            },
            _ => {},
        }
        assert(ops@ =~= old(ops)@ + self.plain_ops());
    }

    /// Appends to `ops` the operations of the instruction written with the parameter
    /// `value`, inside a procedure with `num_locals` locals. Returns `false`, and leaves
    /// `ops` as it is, if the instruction does not accept that parameter.
    pub fn lower_param(&self, value: u64, num_locals: u32, ops: &mut Vec<Operation>) -> (ok: bool)
        ensures
            ok == self.param_ops(value, num_locals).is_some(),
            ok ==> final(ops)@ == old(ops)@ + self.param_ops(value, num_locals).unwrap(),
            !ok ==> final(ops)@ == old(ops)@,
    {
        match self {
            Mnemonic::Push => {
                push_value(value % MODULUS, ops);
            },
            Mnemonic::Eq => {
                if value % MODULUS == 0 {
                    ops.push(Operation::Eqz);
                } else {
                    push_value(value % MODULUS, ops);
                    ops.push(Operation::Eq);
                }
            },
            Mnemonic::Dup => {
                if value > 15 {
                    return false;
                }
                if value == 8 || value == 10 || value == 12 || value == 14 {
                    ops.push(Operation::Pad);
                    ops.push(dup_operation(value + 1));
                    ops.push(Operation::Add);
                } else {
                    ops.push(dup_operation(value));
                }
            },
            Mnemonic::Swap => {
                if value != 1 {
                    return false;
                }
                ops.push(Operation::Swap);
            },
            Mnemonic::Swapw => {
                if value == 1 {
                    ops.push(Operation::SwapW);
                } else if value == 2 {
                    ops.push(Operation::SwapW2);
                } else if value == 3 {
                    ops.push(Operation::SwapW3);
                } else {
                    return false;
                }
            },
            Mnemonic::Movup => {
                if value < 2 || value > 8 {
                    return false;
                }
                ops.push(movup_operation(value));
            },
            Mnemonic::Movdn => {
                if value < 2 || value > 8 {
                    return false;
                }
                ops.push(movdn_operation(value));
            },
            Mnemonic::AdvPush => {
                if value < 1 || value > 16 {
                    return false;
                }
                let mut i: u64 = 0;
                while i < value
                    invariant
                        i <= value,
                        ops@ == old(ops)@ + Seq::new(i as nat, |k: int| Operation::Read),
                    decreases value - i,
                {
                    ops.push(Operation::Read);
                    i += 1;
                    assert(ops@ =~= old(ops)@ + Seq::new(i as nat, |k: int| Operation::Read));
                }
            },
            Mnemonic::MemLoad => {
                push_value(value % MODULUS, ops);
                ops.push(Operation::MLoad);
            },
            Mnemonic::MemStore => {
                push_value(value % MODULUS, ops);
                ops.push(Operation::MStore);
                ops.push(Operation::Drop);
            },
            Mnemonic::MemLoadw => {
                push_value(value % MODULUS, ops);
                ops.push(Operation::MLoadW);
            },
            Mnemonic::MemStorew => {
                push_value(value % MODULUS, ops);
                ops.push(Operation::MStoreW);
            },
            Mnemonic::LocLoad => {
                if value >= num_locals as u64 {
                    return false;
                }
                push_value(offset_of_local(value), ops);
                ops.push(Operation::FmpAdd);
                ops.push(Operation::MLoad);
            },
            Mnemonic::LocStore => {
                if value >= num_locals as u64 {
                    return false;
                }
                push_value(offset_of_local(value), ops);
                ops.push(Operation::FmpAdd);
                ops.push(Operation::MStore);
                ops.push(Operation::Drop);
            },
            Mnemonic::LocLoadw => {
                if value >= num_locals as u64 {
                    return false;
                }
                push_value(offset_of_local(value), ops);
                ops.push(Operation::FmpAdd);
                ops.push(Operation::MLoadW);
            },
            Mnemonic::LocStorew => {
                if value >= num_locals as u64 {
                    return false;
                }
                push_value(offset_of_local(value), ops);
                ops.push(Operation::FmpAdd);
                ops.push(Operation::MStoreW);
            },
            _ => {
                return false;
            },
        }
        assert(ops@ =~= old(ops)@ + self.param_ops(value, num_locals).unwrap());
        true
    }
}

/// Appends to `ops` the operations that push the field element `value`.
pub fn push_value(value: u64, ops: &mut Vec<Operation>)
    ensures
        final(ops)@ == old(ops)@ + push_value_spec(value),
{
    if value == 0 {
        ops.push(Operation::Pad);
    } else if value == 1 {
        ops.push(Operation::Pad);
        ops.push(Operation::Incr);
    } else {
        ops.push(Operation::Push(value));
    }
    assert(ops@ =~= old(ops)@ + push_value_spec(value));
}

fn offset_of_local(index: u64) -> (out: u64)
    requires
        index <= u32::MAX,
    ensures
        out == local_offset(index),
{
    if index == 0 {
        0
    } else {
        MODULUS - index
    }
}

fn dup_operation(depth: u64) -> (out: Operation)
    ensures
        out == dup_op(depth),
{
    if depth == 0 {
        Operation::Dup0
    } else if depth == 1 {
        Operation::Dup1
    } else if depth == 2 {
        Operation::Dup2
    } else if depth == 3 {
        Operation::Dup3
    } else if depth == 4 {
        Operation::Dup4
    } else if depth == 5 {
        Operation::Dup5
    } else if depth == 6 {
        Operation::Dup6
    } else if depth == 7 {
        Operation::Dup7
    } else if depth == 9 {
        Operation::Dup9
    } else if depth == 11 {
        Operation::Dup11
    } else if depth == 13 {
        Operation::Dup13
    } else {
        Operation::Dup15
    }
}

fn movup_operation(depth: u64) -> (out: Operation)
    ensures
        out == movup_op(depth),
{
    if depth == 2 {
        Operation::MovUp2
    } else if depth == 3 {
        Operation::MovUp3
    } else if depth == 4 {
        Operation::MovUp4
    } else if depth == 5 {
        Operation::MovUp5
    } else if depth == 6 {
        Operation::MovUp6
    } else if depth == 7 {
        Operation::MovUp7
    } else {
        Operation::MovUp8
    }
}

fn movdn_operation(depth: u64) -> (out: Operation)
    ensures
        out == movdn_op(depth),
{
    if depth == 2 {
        Operation::MovDn2
    } else if depth == 3 {
        Operation::MovDn3
    } else if depth == 4 {
        Operation::MovDn4
    } else if depth == 5 {
        Operation::MovDn5
    } else if depth == 6 {
        Operation::MovDn6
    } else if depth == 7 {
        Operation::MovDn7
    } else {
        Operation::MovDn8
    }
}

/// Returns the mnemonic that `word` spells, if it spells one.
pub fn find_mnemonic(word: &Vec<char>) -> (out: Option<Mnemonic>)
    ensures
        out == mnemonic_of(word@),
{
    if eq_lit(word, "assert") {
        Some(Mnemonic::Assert)
    } else if eq_lit(word, "assertz") {
        Some(Mnemonic::Assertz)
    } else if eq_lit(word, "assert_eq") {
        Some(Mnemonic::AssertEq)
    } else if eq_lit(word, "add") {
        Some(Mnemonic::Add)
    } else if eq_lit(word, "sub") {
        Some(Mnemonic::Sub)
    } else if eq_lit(word, "mul") {
        Some(Mnemonic::Mul)
    } else if eq_lit(word, "div") {
        Some(Mnemonic::Div)
    } else if eq_lit(word, "neg") {
        Some(Mnemonic::Neg)
    } else if eq_lit(word, "inv") {
        Some(Mnemonic::Inv)
    } else if eq_lit(word, "not") {
        Some(Mnemonic::Not)
    } else if eq_lit(word, "and") {
        Some(Mnemonic::And)
    } else if eq_lit(word, "or") {
        Some(Mnemonic::Or)
    } else if eq_lit(word, "neq") {
        Some(Mnemonic::Neq)
    } else if eq_lit(word, "drop") {
        Some(Mnemonic::Drop)
    } else if eq_lit(word, "dropw") {
        Some(Mnemonic::Dropw)
    } else if eq_lit(word, "padw") {
        Some(Mnemonic::Padw)
    } else if eq_lit(word, "cswap") {
        Some(Mnemonic::Cswap)
    } else if eq_lit(word, "cswapw") {
        Some(Mnemonic::Cswapw)
    } else if eq_lit(word, "cdrop") {
        Some(Mnemonic::Cdrop)
    } else if eq_lit(word, "cdropw") {
        Some(Mnemonic::Cdropw)
    } else if eq_lit(word, "sdepth") {
        Some(Mnemonic::Sdepth)
    } else if eq_lit(word, "adv_loadw") {
        Some(Mnemonic::AdvLoadw)
    } else if eq_lit(word, "u32split") {
        Some(Mnemonic::U32Split)
    } else if eq_lit(word, "u32wrapping_add") {
        Some(Mnemonic::U32WrappingAdd)
    } else if eq_lit(word, "u32overflowing_add") {
        Some(Mnemonic::U32OverflowingAdd)
    } else if eq_lit(word, "u32wrapping_add3") {
        Some(Mnemonic::U32WrappingAdd3)
    } else if eq_lit(word, "u32overflowing_add3") {
        Some(Mnemonic::U32OverflowingAdd3)
    } else if eq_lit(word, "u32wrapping_sub") {
        Some(Mnemonic::U32WrappingSub)
    } else if eq_lit(word, "u32overflowing_sub") {
        Some(Mnemonic::U32OverflowingSub)
    } else if eq_lit(word, "u32wrapping_mul") {
        Some(Mnemonic::U32WrappingMul)
    } else if eq_lit(word, "u32overflowing_mul") {
        Some(Mnemonic::U32OverflowingMul)
    } else if eq_lit(word, "u32wrapping_madd") {
        Some(Mnemonic::U32WrappingMadd)
    } else if eq_lit(word, "u32overflowing_madd") {
        Some(Mnemonic::U32OverflowingMadd)
    } else if eq_lit(word, "u32unchecked_div") {
        Some(Mnemonic::U32UncheckedDiv)
    } else if eq_lit(word, "u32unchecked_mod") {
        Some(Mnemonic::U32UncheckedMod)
    } else if eq_lit(word, "u32unchecked_divmod") {
        Some(Mnemonic::U32UncheckedDivmod)
    } else if eq_lit(word, "u32checked_and") {
        Some(Mnemonic::U32CheckedAnd)
    } else if eq_lit(word, "u32checked_xor") {
        Some(Mnemonic::U32CheckedXor)
    } else if eq_lit(word, "eq") {
        Some(Mnemonic::Eq)
    } else if eq_lit(word, "dup") {
        Some(Mnemonic::Dup)
    } else if eq_lit(word, "swap") {
        Some(Mnemonic::Swap)
    } else if eq_lit(word, "swapw") {
        Some(Mnemonic::Swapw)
    } else if eq_lit(word, "mem_load") {
        Some(Mnemonic::MemLoad)
    } else if eq_lit(word, "mem_store") {
        Some(Mnemonic::MemStore)
    } else if eq_lit(word, "mem_loadw") {
        Some(Mnemonic::MemLoadw)
    } else if eq_lit(word, "mem_storew") {
        Some(Mnemonic::MemStorew)
    } else if eq_lit(word, "push") {
        Some(Mnemonic::Push)
    } else if eq_lit(word, "movup") {
        Some(Mnemonic::Movup)
    } else if eq_lit(word, "movdn") {
        Some(Mnemonic::Movdn)
    } else if eq_lit(word, "adv_push") {
        Some(Mnemonic::AdvPush)
    } else if eq_lit(word, "loc_load") {
        Some(Mnemonic::LocLoad)
    } else if eq_lit(word, "loc_store") {
        Some(Mnemonic::LocStore)
    } else if eq_lit(word, "loc_loadw") {
        Some(Mnemonic::LocLoadw)
    } else if eq_lit(word, "loc_storew") {
        Some(Mnemonic::LocStorew)
    } else {
        None
    }
}

} // verus!
