//! The operations of the virtual machine.

use crate::decimal::{decimal_text, u64_chars};
use crate::text::{push_all, push_lit};
use vstd::prelude::*;

verus! {

/// An operation of the virtual machine.
#[derive(Clone, Copy, Debug, PartialEq, Eq, Structural)]
pub enum Operation {
    /// Advances the clock without changing the stack.
    Noop,
    /// Replaces the top item by 1 if it is 0, and by 0 otherwise.
    Eqz,
    /// Replaces the top item by its additive inverse.
    Neg,
    /// Replaces the top item by its multiplicative inverse.
    Inv,
    /// Adds 1 to the top item.
    Incr,
    /// Replaces a binary top item by its negation.
    Not,
    /// Adds the frame pointer to the top item.
    FmpAdd,
    /// Replaces the address on top of the stack by the first element of the word stored there.
    MLoad,
    /// Swaps the two top items.
    Swap,
    /// Moves the item at depth 2 to the top.
    MovUp2,
    /// Moves the top item to depth 2.
    MovDn2,
    /// Moves the item at depth 3 to the top.
    MovUp3,
    /// Moves the top item to depth 3.
    MovDn3,
    /// Overwrites the top word with a word read from the advice tape.
    ReadW,
    /// Moves the item at depth 4 to the top.
    MovUp4,
    /// Moves the top item to depth 4.
    MovDn4,
    /// Moves the item at depth 5 to the top.
    MovUp5,
    /// Moves the top item to depth 5.
    MovDn5,
    /// Moves the item at depth 6 to the top.
    MovUp6,
    /// Moves the top item to depth 6.
    MovDn6,
    /// Moves the item at depth 7 to the top.
    MovUp7,
    /// Moves the top item to depth 7.
    MovDn7,
    /// Swaps the two top words.
    SwapW,
    /// Moves the item at depth 8 to the top.
    MovUp8,
    /// Moves the top item to depth 8.
    MovDn8,
    /// Swaps the top word with the third word.
    SwapW2,
    /// Swaps the top word with the fourth word.
    SwapW3,
    /// Removes the top item and fails unless it is 1.
    Assert,
    /// Replaces the two top items by 1 if they are equal, and by 0 otherwise.
    Eq,
    /// Replaces the two top items by their sum.
    Add,
    /// Replaces the two top items by their product.
    Mul,
    /// Replaces two binary top items by their conjunction.
    And,
    /// Replaces two binary top items by their disjunction.
    Or,
    /// Replaces two 32-bit top items by their bitwise conjunction.
    U32and,
    /// Replaces two 32-bit top items by their bitwise exclusive disjunction.
    U32xor,
    /// Removes the top item.
    Drop,
    /// Removes the top item and swaps the next two if it was 1.
    CSwap,
    /// Removes the top item and swaps the next two words if it was 1.
    CSwapW,
    /// Overwrites the top word with the word stored at the address on top of the stack.
    MLoadW,
    /// Stores the second item at the address on top of the stack.
    MStore,
    /// Stores the top word at the address on top of the stack.
    MStoreW,
    /// Removes the top item and adds it to the frame pointer.
    FmpUpdate,
    /// Pushes 0.
    Pad,
    /// Pushes a copy of the top item.
    Dup0,
    /// Pushes a copy of the item at depth 1.
    Dup1,
    /// Pushes a copy of the item at depth 2.
    Dup2,
    /// Pushes a copy of the item at depth 3.
    Dup3,
    /// Pushes a copy of the item at depth 4.
    Dup4,
    /// Pushes a copy of the item at depth 5.
    Dup5,
    /// Pushes a copy of the item at depth 6.
    Dup6,
    /// Pushes a copy of the item at depth 7.
    Dup7,
    /// Pushes a copy of the item at depth 9.
    Dup9,
    /// Pushes a copy of the item at depth 11.
    Dup11,
    /// Pushes a copy of the item at depth 13.
    Dup13,
    /// Pushes a copy of the item at depth 15.
    Dup15,
    /// Pushes an item read from the advice tape.
    Read,
    /// Pushes the depth of the stack.
    SDepth,
    /// Replaces two 32-bit top items by their sum, split into low half and carry.
    U32add,
    /// Replaces two 32-bit top items by their difference and a borrow flag.
    U32sub,
    /// Replaces two 32-bit top items by their product, split into two halves.
    U32mul,
    /// Replaces two 32-bit top items by their quotient and remainder.
    U32div,
    /// Replaces the top item by its two 32-bit halves.
    U32split,
    /// Replaces three 32-bit top items by their sum, split into low half and carry.
    U32add3,
    /// Replaces three 32-bit top items by a product plus an addend, split into two halves.
    U32madd,
    /// Marks the start of a span block.
    Span,
    /// Marks the start of a join block.
    Join,
    /// Marks the start of a split block.
    Split,
    /// Marks the start of a loop block.
    Loop,
    /// Pushes the given field element.
    Push(u64),
}

impl Operation {
    /// The opcode that identifies the operation to the machine.
    pub open spec fn op_code_spec(self) -> u8 {
        match self {
            Operation::Noop => 0,
            Operation::Eqz => 1,
            Operation::Neg => 2,
            Operation::Inv => 3,
            Operation::Incr => 4,
            Operation::Not => 5,
            Operation::FmpAdd => 6,
            Operation::MLoad => 7,
            Operation::Swap => 8,
            Operation::MovUp2 => 10,
            Operation::MovDn2 => 11,
            Operation::MovUp3 => 12,
            Operation::MovDn3 => 13,
            Operation::ReadW => 14,
            Operation::MovUp4 => 16,
            Operation::MovDn4 => 17,
            Operation::MovUp5 => 18,
            Operation::MovDn5 => 19,
            Operation::MovUp6 => 20,
            Operation::MovDn6 => 21,
            Operation::MovUp7 => 22,
            Operation::MovDn7 => 23,
            Operation::SwapW => 24,
            Operation::MovUp8 => 26,
            Operation::MovDn8 => 27,
            Operation::SwapW2 => 28,
            Operation::SwapW3 => 29,
            Operation::Assert => 32,
            Operation::Eq => 33,
            Operation::Add => 34,
            Operation::Mul => 35,
            Operation::And => 36,
            Operation::Or => 37,
            Operation::U32and => 38,
            Operation::U32xor => 39,
            Operation::Drop => 41,
            Operation::CSwap => 42,
            Operation::CSwapW => 43,
            Operation::MLoadW => 44,
            Operation::MStore => 45,
            Operation::MStoreW => 46,
            Operation::FmpUpdate => 47,
            Operation::Pad => 48,
            Operation::Dup0 => 49,
            Operation::Dup1 => 50,
            Operation::Dup2 => 51,
            Operation::Dup3 => 52,
            Operation::Dup4 => 53,
            Operation::Dup5 => 54,
            Operation::Dup6 => 55,
            Operation::Dup7 => 56,
            Operation::Dup9 => 57,
            Operation::Dup11 => 58,
            Operation::Dup13 => 59,
            Operation::Dup15 => 60,
            Operation::Read => 61,
            Operation::SDepth => 62,
            Operation::U32add => 64,
            Operation::U32sub => 66,
            Operation::U32mul => 68,
            Operation::U32div => 70,
            Operation::U32split => 72,
            Operation::U32add3 => 76,
            Operation::U32madd => 78,
            Operation::Span => 84,
            Operation::Join => 85,
            Operation::Split => 86,
            Operation::Loop => 87,
            Operation::Push(_) => 100,
        }
    }

    /// The operation's text.
    pub open spec fn text_spec(self) -> Seq<char> {
        match self {
            Operation::Noop => "noop"@,
            Operation::Eqz => "eqz"@,
            Operation::Neg => "neg"@,
            Operation::Inv => "inv"@,
            Operation::Incr => "incr"@,
            Operation::Not => "not"@,
            Operation::FmpAdd => "fmpadd"@,
            Operation::MLoad => "mload"@,
            Operation::Swap => "swap"@,
            Operation::MovUp2 => "movup2"@,
            Operation::MovDn2 => "movdn2"@,
            Operation::MovUp3 => "movup3"@,
            Operation::MovDn3 => "movdn3"@,
            Operation::ReadW => "readw"@,
            Operation::MovUp4 => "movup4"@,
            Operation::MovDn4 => "movdn4"@,
            Operation::MovUp5 => "movup5"@,
            Operation::MovDn5 => "movdn5"@,
            Operation::MovUp6 => "movup6"@,
            Operation::MovDn6 => "movdn6"@,
            Operation::MovUp7 => "movup7"@,
            Operation::MovDn7 => "movdn7"@,
            Operation::SwapW => "swapw"@,
            Operation::MovUp8 => "movup8"@,
            Operation::MovDn8 => "movdn8"@,
            Operation::SwapW2 => "swapw2"@,
            Operation::SwapW3 => "swapw3"@,
            Operation::Assert => "assert"@,
            Operation::Eq => "eq"@,
            Operation::Add => "add"@,
            Operation::Mul => "mul"@,
            Operation::And => "and"@,
            Operation::Or => "or"@,
            Operation::U32and => "u32and"@,
            Operation::U32xor => "u32xor"@,
            Operation::Drop => "drop"@,
            Operation::CSwap => "cswap"@,
            Operation::CSwapW => "cswapw"@,
            Operation::MLoadW => "mloadw"@,
            Operation::MStore => "mstore"@,
            Operation::MStoreW => "mstorew"@,
            Operation::FmpUpdate => "fmpupdate"@,
            Operation::Pad => "pad"@,
            Operation::Dup0 => "dup0"@,
            Operation::Dup1 => "dup1"@,
            Operation::Dup2 => "dup2"@,
            Operation::Dup3 => "dup3"@,
            Operation::Dup4 => "dup4"@,
            Operation::Dup5 => "dup5"@,
            Operation::Dup6 => "dup6"@,
            Operation::Dup7 => "dup7"@,
            Operation::Dup9 => "dup9"@,
            Operation::Dup11 => "dup11"@,
            Operation::Dup13 => "dup13"@,
            Operation::Dup15 => "dup15"@,
            Operation::Read => "read"@,
            Operation::SDepth => "sdepth"@,
            Operation::U32add => "u32add"@,
            Operation::U32sub => "u32sub"@,
            Operation::U32mul => "u32mul"@,
            Operation::U32div => "u32div"@,
            Operation::U32split => "u32split"@,
            Operation::U32add3 => "u32add3"@,
            Operation::U32madd => "u32madd"@,
            Operation::Span => "span"@,
            Operation::Join => "join"@,
            Operation::Split => "split"@,
            Operation::Loop => "loop"@,
            Operation::Push(v) => "push("@ + decimal_text(v as nat) + ")"@,
        }
    }

    /// The value that the operation carries, if it carries one.
    pub open spec fn imm_value_spec(self) -> Option<u64> {
        match self {
            Operation::Push(v) => Some(v),
            _ => None,
        }
    }

    /// Returns the opcode that identifies the operation to the machine.
    pub fn op_code(&self) -> (code: u8)
        ensures
            code == self.op_code_spec(),
    {
        match self {
            Operation::Noop => 0,
            Operation::Eqz => 1,
            Operation::Neg => 2,
            Operation::Inv => 3,
            Operation::Incr => 4,
            Operation::Not => 5,
            Operation::FmpAdd => 6,
            Operation::MLoad => 7,
            Operation::Swap => 8,
            Operation::MovUp2 => 10,
            Operation::MovDn2 => 11,
            Operation::MovUp3 => 12,
            Operation::MovDn3 => 13,
            Operation::ReadW => 14,
            Operation::MovUp4 => 16,
            Operation::MovDn4 => 17,
            Operation::MovUp5 => 18,
            Operation::MovDn5 => 19,
            Operation::MovUp6 => 20,
            Operation::MovDn6 => 21,
            Operation::MovUp7 => 22,
            Operation::MovDn7 => 23,
            Operation::SwapW => 24,
            Operation::MovUp8 => 26,
            Operation::MovDn8 => 27,
            Operation::SwapW2 => 28,
            Operation::SwapW3 => 29,
            Operation::Assert => 32,
            Operation::Eq => 33,
            Operation::Add => 34,
            Operation::Mul => 35,
            Operation::And => 36,
            Operation::Or => 37,
            Operation::U32and => 38,
            Operation::U32xor => 39,
            Operation::Drop => 41,
            Operation::CSwap => 42,
            Operation::CSwapW => 43,
            Operation::MLoadW => 44,
            Operation::MStore => 45,
            Operation::MStoreW => 46,
            Operation::FmpUpdate => 47,
            Operation::Pad => 48,
            Operation::Dup0 => 49,
            Operation::Dup1 => 50,
            Operation::Dup2 => 51,
            Operation::Dup3 => 52,
            Operation::Dup4 => 53,
            Operation::Dup5 => 54,
            Operation::Dup6 => 55,
            Operation::Dup7 => 56,
            Operation::Dup9 => 57,
            Operation::Dup11 => 58,
            Operation::Dup13 => 59,
            Operation::Dup15 => 60,
            Operation::Read => 61,
            Operation::SDepth => 62,
            Operation::U32add => 64,
            Operation::U32sub => 66,
            Operation::U32mul => 68,
            Operation::U32div => 70,
            Operation::U32split => 72,
            Operation::U32add3 => 76,
            Operation::U32madd => 78,
            Operation::Span => 84,
            Operation::Join => 85,
            Operation::Split => 86,
            Operation::Loop => 87,
            Operation::Push(_) => 100,
        }
    }

    /// Returns the value that the operation carries, if it carries one.
    pub fn imm_value(&self) -> (value: Option<u64>)
        ensures
            value == self.imm_value_spec(),
    {
        match self {
            Operation::Push(v) => Some(*v),
            _ => None,
        }
    }

    /// Appends the operation's text to `buf`.
    pub fn write_text(&self, buf: &mut Vec<char>)
        ensures
            final(buf)@ == old(buf)@ + self.text_spec(),
    {
        match self {
            Operation::Noop => push_lit(buf, "noop"),
            Operation::Eqz => push_lit(buf, "eqz"),
            Operation::Neg => push_lit(buf, "neg"),
            Operation::Inv => push_lit(buf, "inv"),
            Operation::Incr => push_lit(buf, "incr"),
            Operation::Not => push_lit(buf, "not"),
            Operation::FmpAdd => push_lit(buf, "fmpadd"),
            Operation::MLoad => push_lit(buf, "mload"),
            Operation::Swap => push_lit(buf, "swap"),
            Operation::MovUp2 => push_lit(buf, "movup2"),
            Operation::MovDn2 => push_lit(buf, "movdn2"),
            Operation::MovUp3 => push_lit(buf, "movup3"),
            Operation::MovDn3 => push_lit(buf, "movdn3"),
            Operation::ReadW => push_lit(buf, "readw"),
            Operation::MovUp4 => push_lit(buf, "movup4"),
            Operation::MovDn4 => push_lit(buf, "movdn4"),
            Operation::MovUp5 => push_lit(buf, "movup5"),
            Operation::MovDn5 => push_lit(buf, "movdn5"),
            Operation::MovUp6 => push_lit(buf, "movup6"),
            Operation::MovDn6 => push_lit(buf, "movdn6"),
            Operation::MovUp7 => push_lit(buf, "movup7"),
            Operation::MovDn7 => push_lit(buf, "movdn7"),
            Operation::SwapW => push_lit(buf, "swapw"),
            Operation::MovUp8 => push_lit(buf, "movup8"),
            Operation::MovDn8 => push_lit(buf, "movdn8"),
            Operation::SwapW2 => push_lit(buf, "swapw2"),
            Operation::SwapW3 => push_lit(buf, "swapw3"),
            Operation::Assert => push_lit(buf, "assert"),
            Operation::Eq => push_lit(buf, "eq"),
            Operation::Add => push_lit(buf, "add"),
            Operation::Mul => push_lit(buf, "mul"),
            Operation::And => push_lit(buf, "and"),
            Operation::Or => push_lit(buf, "or"),
            Operation::U32and => push_lit(buf, "u32and"),
            Operation::U32xor => push_lit(buf, "u32xor"),
            Operation::Drop => push_lit(buf, "drop"),
            Operation::CSwap => push_lit(buf, "cswap"),
            Operation::CSwapW => push_lit(buf, "cswapw"),
            Operation::MLoadW => push_lit(buf, "mloadw"),
            Operation::MStore => push_lit(buf, "mstore"),
            Operation::MStoreW => push_lit(buf, "mstorew"),
            Operation::FmpUpdate => push_lit(buf, "fmpupdate"),
            Operation::Pad => push_lit(buf, "pad"),
            Operation::Dup0 => push_lit(buf, "dup0"),
            Operation::Dup1 => push_lit(buf, "dup1"),
            Operation::Dup2 => push_lit(buf, "dup2"),
            Operation::Dup3 => push_lit(buf, "dup3"),
            Operation::Dup4 => push_lit(buf, "dup4"),
            Operation::Dup5 => push_lit(buf, "dup5"),
            Operation::Dup6 => push_lit(buf, "dup6"),
            Operation::Dup7 => push_lit(buf, "dup7"),
            Operation::Dup9 => push_lit(buf, "dup9"),
            Operation::Dup11 => push_lit(buf, "dup11"),
            Operation::Dup13 => push_lit(buf, "dup13"),
            Operation::Dup15 => push_lit(buf, "dup15"),
            Operation::Read => push_lit(buf, "read"),
            Operation::SDepth => push_lit(buf, "sdepth"),
            Operation::U32add => push_lit(buf, "u32add"),
            Operation::U32sub => push_lit(buf, "u32sub"),
            Operation::U32mul => push_lit(buf, "u32mul"),
            Operation::U32div => push_lit(buf, "u32div"),
            Operation::U32split => push_lit(buf, "u32split"),
            Operation::U32add3 => push_lit(buf, "u32add3"),
            Operation::U32madd => push_lit(buf, "u32madd"),
            Operation::Span => push_lit(buf, "span"),
            Operation::Join => push_lit(buf, "join"),
            Operation::Split => push_lit(buf, "split"),
            Operation::Loop => push_lit(buf, "loop"),
            Operation::Push(v) => {
                push_lit(buf, "push(");
                let digits = u64_chars(*v);
                push_all(buf, &digits);
                push_lit(buf, ")");
                assert(buf@ == old(buf)@ + self.text_spec());
            },
        }
    }
}

} // verus!
