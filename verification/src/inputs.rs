//! The values that a program is run with and the values that it leaves.

use crate::hasher::MODULUS;
use vstd::prelude::*;

verus! {

/// Whether every value is a field element: below the modulus.
pub open spec fn all_elements(values: Seq<u64>) -> bool {
    forall|i: int| 0 <= i < values.len() ==> #[trigger] values[i] < MODULUS
}

/// The position of the first value that is no field element, if there is one.
pub open spec fn first_invalid(values: Seq<u64>) -> Option<int>
    decreases values.len(),
{
    if values.len() == 0 {
        None
    } else {
        match first_invalid(values.drop_last()) {
            Some(i) => Some(i),
            None => if values.last() >= MODULUS {
                Some(values.len() - 1)
            } else {
                None
            },
        }
    }
}

/// The first invalid value is invalid, and there is one unless all values are valid.
pub proof fn lemma_first_invalid(values: Seq<u64>)
    ensures
        first_invalid(values) is None <==> all_elements(values),
        first_invalid(values) matches Some(i) ==> 0 <= i < values.len() && values[i] >= MODULUS
            && all_elements(values.take(i)),
    decreases values.len(),
{
    if values.len() > 0 {
        let front = values.drop_last();
        lemma_first_invalid(front);
        match first_invalid(front) {
            Some(i) => {
                assert(front[i] == values[i]);
                assert(front.take(i) == values.take(i));
            },
            None => {
                if values.last() >= MODULUS {
                    assert(values.take(values.len() - 1) == front);
                } else {
                    assert forall|i: int| 0 <= i < values.len() implies #[trigger] values[i]
                        < MODULUS by {
                        if i < front.len() {
                            assert(front[i] == values[i]);
                        }
                    }
                }
            },
        }
    }
}

/// Which list of inputs a value belongs to.
#[derive(Clone, Copy, Debug, PartialEq, Eq, Structural)]
pub enum InputKind {
    /// The values that the stack starts with.
    StackInit,
    /// The values of the advice tape.
    AdviceTape,
}

/// The error of inputs that hold a value that is no field element.
#[derive(Clone, Copy, Debug, PartialEq, Eq, Structural)]
pub struct InputError {
    /// The list that holds the value.
    pub kind: InputKind,
    /// The value.
    pub value: u64,
}

/// The inputs of a program: the values that the stack starts with and the advice tape.
#[derive(Debug)]
pub struct ProgramInputs {
    stack_init: Vec<u64>,
    advice_tape: Vec<u64>,
}

fn find_invalid(values: &Vec<u64>) -> (out: Option<usize>)
    ensures
        match (out, first_invalid(values@)) {
            (Some(i), Some(expected)) => i == expected && i < values@.len(),
            (None, None) => true,
            _ => false,
        },
{
    let mut i: usize = 0;
    while i < values.len()
        invariant
            i <= values@.len(),
            first_invalid(values@.take(i as int)) is None,
        decreases values@.len() - i,
    {
        proof {
            assert(values@.take(i + 1).drop_last() == values@.take(i as int));
        }
        if values[i] >= MODULUS {
            proof {
                lemma_first_invalid_prefix(values@, i + 1);
            }
            return Some(i);
        }
        i += 1;
    }
    proof {
        assert(values@.take(i as int) == values@);
    }
    None
}

/// An invalid value in a prefix is the first invalid value of the whole.
proof fn lemma_first_invalid_prefix(values: Seq<u64>, k: int)
    requires
        0 <= k <= values.len(),
        first_invalid(values.take(k)) is Some,
    ensures
        first_invalid(values) == first_invalid(values.take(k)),
    decreases values.len() - k,
{
    if k < values.len() {
        assert(values.take(k + 1).drop_last() == values.take(k));
        lemma_first_invalid_prefix(values, k + 1);
    } else {
        assert(values.take(k) == values);
    }
}

fn copy_values(values: &Vec<u64>) -> (out: Vec<u64>)
    ensures
        out@ == values@,
{
    let mut out: Vec<u64> = Vec::new();
    let mut i: usize = 0;
    while i < values.len()
        invariant
            i <= values@.len(),
            out@ =~= values@.take(i as int),
        decreases values@.len() - i,
    {
        out.push(values[i]);
        i += 1;
    }
    proof {
        assert(values@.take(i as int) == values@);
    }
    out
}

impl ProgramInputs {
    #[verifier::type_invariant]
    spec fn inv(&self) -> bool {
        all_elements(self.stack_init@) && all_elements(self.advice_tape@)
    }

    /// The values that the stack starts with.
    pub closed spec fn stack_init_spec(&self) -> Seq<u64> {
        self.stack_init@
    }

    /// The values of the advice tape.
    pub closed spec fn advice_tape_spec(&self) -> Seq<u64> {
        self.advice_tape@
    }

    /// Returns the inputs with the given values, all of which are field elements.
    pub fn from_elements(stack_init: Vec<u64>, advice_tape: Vec<u64>) -> (out: ProgramInputs)
        requires
            all_elements(stack_init@),
            all_elements(advice_tape@),
        ensures
            out.stack_init_spec() == stack_init@,
            out.advice_tape_spec() == advice_tape@,
    {
        ProgramInputs { stack_init, advice_tape }
    }

    /// Returns the inputs with the given values, if all of them are field elements;
    /// otherwise the error names the first value that is not, those of the stack before
    /// those of the advice tape.
    pub fn new(stack_init: &Vec<u64>, advice_tape: &Vec<u64>) -> (out: Result<
        ProgramInputs,
        InputError,
    >)
        ensures
            out is Ok <==> all_elements(stack_init@) && all_elements(advice_tape@),
            out matches Ok(inputs) ==> inputs.stack_init_spec() == stack_init@
                && inputs.advice_tape_spec() == advice_tape@,
            out matches Err(error) ==> match first_invalid(stack_init@) {
                Some(i) => error == (InputError {
                    kind: InputKind::StackInit,
                    value: stack_init@[i],
                }),
                None => first_invalid(advice_tape@) matches Some(i) && error == (InputError {
                    kind: InputKind::AdviceTape,
                    value: advice_tape@[i],
                }),
            },
    {
        proof {
            lemma_first_invalid(stack_init@);
            lemma_first_invalid(advice_tape@);
        }
        match find_invalid(stack_init) {
            Some(i) => {
                return Err(InputError { kind: InputKind::StackInit, value: stack_init[i] });
            },
            None => {},
        }
        match find_invalid(advice_tape) {
            Some(i) => {
                return Err(InputError { kind: InputKind::AdviceTape, value: advice_tape[i] });
            },
            None => {},
        }
        Ok(ProgramInputs::from_elements(copy_values(stack_init), copy_values(advice_tape)))
    }

    /// Returns the values that the stack starts with.
    pub fn stack_init(&self) -> (out: &Vec<u64>)
        ensures
            out@ == self.stack_init_spec(),
            all_elements(out@),
    {
        proof {
            use_type_invariant(self);
        }
        &self.stack_init
    }

    /// Returns the values of the advice tape.
    pub fn advice_tape(&self) -> (out: &Vec<u64>)
        ensures
            out@ == self.advice_tape_spec(),
            all_elements(out@),
    {
        proof {
            use_type_invariant(self);
        }
        &self.advice_tape
    }
}

/// The outputs of a program: the top of the stack and the addresses of the rows of the
/// overflow table that are left.
#[derive(Debug)]
pub struct ProgramOutputs {
    stack: Vec<u64>,
    overflow_addrs: Vec<u64>,
}

impl ProgramOutputs {
    /// The stack.
    pub closed spec fn stack_spec(&self) -> Seq<u64> {
        self.stack@
    }

    /// The overflow addresses.
    pub closed spec fn overflow_addrs_spec(&self) -> Seq<u64> {
        self.overflow_addrs@
    }

    /// Returns the outputs with the given stack and overflow addresses.
    pub fn new(stack: Vec<u64>, overflow_addrs: Vec<u64>) -> (out: ProgramOutputs)
        ensures
            out.stack_spec() == stack@,
            out.overflow_addrs_spec() == overflow_addrs@,
    {
        ProgramOutputs { stack, overflow_addrs }
    }

    /// Returns the stack.
    pub fn stack(&self) -> (out: &Vec<u64>)
        ensures
            out@ == self.stack_spec(),
    {
        &self.stack
    }

    /// Returns the overflow addresses.
    pub fn overflow_addrs(&self) -> (out: &Vec<u64>)
        ensures
            out@ == self.overflow_addrs_spec(),
    {
        &self.overflow_addrs
    }
}

} // verus!
