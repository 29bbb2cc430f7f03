//! The contents of the files that accompany a program: its inputs, its outputs, and the
//! text of its hash.

use crate::assembler::{compile_spec, Assembler, Program};
use crate::blocks::well_formed;
use crate::builder::lookup_of;
use crate::decimal::{decimal_text, lemma_parse_decimal_text, parse_u64, parse_u64_spec, u64_chars};
use crate::hasher::{digest_words, holds_digest, read_digest, Digest};
use crate::inputs::{all_elements, ProgramInputs, ProgramOutputs};
use crate::procedures::ModuleProvider;
use crate::text::{lemma_strs_push, string_of, strs, to_chars};
use hex::FromHexError;
use vstd::prelude::*;
use winter_utils::DeserializationError;

verus! {

/// Whether every text is a decimal numeral that fits in 64 bits.
pub open spec fn all_numerals(texts: Seq<Seq<char>>) -> bool {
    forall|i: int| 0 <= i < texts.len() ==> parse_u64_spec(#[trigger] texts[i]) is Some
}

/// The numbers that the numerals write.
pub open spec fn numbers(texts: Seq<Seq<char>>) -> Seq<u64> {
    Seq::new(texts.len(), |i: int| parse_u64_spec(texts[i]).unwrap())
}

/// The decimal texts of the numbers.
pub open spec fn numerals(values: Seq<u64>) -> Seq<Seq<char>> {
    Seq::new(values.len(), |i: int| decimal_text(values[i] as nat))
}

/// Reading the decimal texts of numbers gives the numbers back.
pub proof fn lemma_numerals_round_trip(values: Seq<u64>)
    ensures
        all_numerals(numerals(values)),
        numbers(numerals(values)) == values,
{
    assert forall|i: int| 0 <= i < values.len() implies parse_u64_spec(
        #[trigger] numerals(values)[i],
    ) == Some(values[i]) by {
        lemma_parse_decimal_text(values[i]);
    }
    assert(numbers(numerals(values)) =~= values);
}

/// Tells whether every text is a decimal numeral that fits in 64 bits.
pub fn check_numerals(texts: &Vec<String>) -> (out: bool)
    ensures
        out == all_numerals(strs(texts@)),
{
    let mut i: usize = 0;
    while i < texts.len()
        invariant
            i <= texts@.len(),
            forall|k: int| 0 <= k < i ==> parse_u64_spec(#[trigger] strs(texts@)[k]) is Some,
        decreases texts@.len() - i,
    {
        let chars = to_chars(texts[i].as_str());
        if parse_u64(&chars).is_none() {
            assert(parse_u64_spec(strs(texts@)[i as int]) is None);
            return false;
        }
        i += 1;
    }
    true
}

/// Reads each text as a decimal numeral.
pub fn read_numbers(texts: &Vec<String>) -> (out: Vec<u64>)
    requires
        all_numerals(strs(texts@)),
    ensures
        out@ == numbers(strs(texts@)),
{
    let mut out: Vec<u64> = Vec::new();
    let mut i: usize = 0;
    while i < texts.len()
        invariant
            i <= texts@.len(),
            all_numerals(strs(texts@)),
            out@ =~= numbers(strs(texts@)).take(i as int),
        decreases texts@.len() - i,
    {
        let chars = to_chars(texts[i].as_str());
        assert(chars@ == strs(texts@)[i as int]);
        match parse_u64(&chars) {
            Some(value) => {
                out.push(value);
            },
            None => {},
        }
        i += 1;
    }
    proof {
        assert(numbers(strs(texts@)).take(i as int) == numbers(strs(texts@)));
    }
    out
}

/// Writes each number in decimal.
pub fn write_numbers(values: &Vec<u64>) -> (out: Vec<String>)
    ensures
        strs(out@) == numerals(values@),
{
    let mut out: Vec<String> = Vec::new();
    let mut i: usize = 0;
    while i < values.len()
        invariant
            i <= values@.len(),
            strs(out@) =~= numerals(values@).take(i as int),
        decreases values@.len() - i,
    {
        let text = string_of(&u64_chars(values[i]));
        proof {
            lemma_strs_push(out@, text);
        }
        out.push(text);
        i += 1;
    }
    proof {
        assert(numerals(values@).take(i as int) == numerals(values@));
    }
    out
}

/// The contents of an input file.
#[derive(Debug)]
pub struct InputFile {
    /// The values that the stack starts with, as decimal numerals.
    pub stack_init: Vec<String>,
    /// The values of the advice tape, as decimal numerals, if the file gives any.
    pub advice_tape: Option<Vec<String>>,
}

impl InputFile {
    /// Returns the contents that stand for a missing input file: no initial stack values
    /// and an empty advice tape.
    pub fn empty() -> (out: InputFile)
        ensures
            out.stack_init@.len() == 0,
            out.advice_tape matches Some(tape) && tape@.len() == 0,
            out.valid(),
    {
        let out = InputFile { stack_init: Vec::new(), advice_tape: Some(Vec::new()) };
        assert(numbers(strs(out.stack_init@)) =~= Seq::empty());
        assert(numbers(out.advice_texts()) =~= Seq::empty());
        out
    }

    /// The texts of the advice tape; none if the file gives no advice tape.
    pub open spec fn advice_texts(&self) -> Seq<Seq<char>> {
        match self.advice_tape {
            Some(texts) => strs(texts@),
            None => Seq::empty(),
        }
    }

    /// Whether every value of the file is a numeral.
    pub open spec fn readable(&self) -> bool {
        all_numerals(strs(self.stack_init@)) && all_numerals(self.advice_texts())
    }

    /// Whether the file can be turned into program inputs: every value is a numeral that
    /// writes a field element.
    pub open spec fn valid(&self) -> bool {
        &&& self.readable()
        &&& all_elements(numbers(strs(self.stack_init@)))
        &&& all_elements(numbers(self.advice_texts()))
    }

    /// Tells whether every value of the file is a numeral.
    pub fn is_readable(&self) -> (out: bool)
        ensures
            out == self.readable(),
    {
        if !check_numerals(&self.stack_init) {
            return false;
        }
        match &self.advice_tape {
            Some(texts) => check_numerals(texts),
            None => true,
        }
    }

    /// Tells whether the file can be turned into program inputs.
    pub fn is_valid(&self) -> (out: bool)
        ensures
            out == self.valid(),
    {
        if !self.is_readable() {
            return false;
        }
        ProgramInputs::new(&self.stack_init(), &self.advice_tape()).is_ok()
    }

    /// Returns the values that the stack starts with.
    pub fn stack_init(&self) -> (out: Vec<u64>)
        requires
            all_numerals(strs(self.stack_init@)),
        ensures
            out@ == numbers(strs(self.stack_init@)),
    {
        read_numbers(&self.stack_init)
    }

    /// Returns the values of the advice tape; none if the file gives no advice tape.
    pub fn advice_tape(&self) -> (out: Vec<u64>)
        requires
            all_numerals(self.advice_texts()),
        ensures
            out@ == numbers(self.advice_texts()),
    {
        match &self.advice_tape {
            Some(texts) => read_numbers(texts),
            None => {
                let out: Vec<u64> = Vec::new();
                assert(out@ =~= numbers(self.advice_texts()));
                out
            },
        }
    }

    /// Returns the program inputs that the file describes.
    pub fn get_program_inputs(&self) -> (out: ProgramInputs)
        requires
            self.valid(),
        ensures
            out.stack_init_spec() == numbers(strs(self.stack_init@)),
            out.advice_tape_spec() == numbers(self.advice_texts()),
    {
        ProgramInputs::from_elements(self.stack_init(), self.advice_tape())
    }
}

/// The contents of an output file.
#[derive(Debug)]
pub struct OutputFile {
    /// The stack, as decimal numerals.
    pub stack: Vec<String>,
    /// The overflow addresses, as decimal numerals.
    pub overflow_addrs: Vec<String>,
}

impl OutputFile {
    /// Whether every value of the file is a numeral.
    pub open spec fn readable(&self) -> bool {
        all_numerals(strs(self.stack@)) && all_numerals(strs(self.overflow_addrs@))
    }

    /// Returns the contents of the file that records `outputs`.
    pub fn new(outputs: ProgramOutputs) -> (out: OutputFile)
        ensures
            strs(out.stack@) == numerals(outputs.stack_spec()),
            strs(out.overflow_addrs@) == numerals(outputs.overflow_addrs_spec()),
            out.readable(),
    {
        proof {
            lemma_numerals_round_trip(outputs.stack_spec());
            lemma_numerals_round_trip(outputs.overflow_addrs_spec());
        }
        OutputFile {
            stack: write_numbers(outputs.stack()),
            overflow_addrs: write_numbers(outputs.overflow_addrs()),
        }
    }

    /// Tells whether every value of the file is a numeral.
    pub fn is_readable(&self) -> (out: bool)
        ensures
            out == self.readable(),
    {
        check_numerals(&self.stack) && check_numerals(&self.overflow_addrs)
    }

    /// Returns the outputs that the file records.
    pub fn outputs(&self) -> (out: ProgramOutputs)
        requires
            self.readable(),
        ensures
            out.stack_spec() == numbers(strs(self.stack@)),
            out.overflow_addrs_spec() == numbers(strs(self.overflow_addrs@)),
    {
        ProgramOutputs::new(read_numbers(&self.stack), read_numbers(&self.overflow_addrs))
    }
}

/// Writing outputs to a file and reading the file gives the outputs back.
pub proof fn lemma_outputs_round_trip(outputs: ProgramOutputs, file: OutputFile)
    requires
        strs(file.stack@) == numerals(outputs.stack_spec()),
        strs(file.overflow_addrs@) == numerals(outputs.overflow_addrs_spec()),
    ensures
        file.readable(),
        numbers(strs(file.stack@)) == outputs.stack_spec(),
        numbers(strs(file.overflow_addrs@)) == outputs.overflow_addrs_spec(),
{
    lemma_numerals_round_trip(outputs.stack_spec());
    lemma_numerals_round_trip(outputs.overflow_addrs_spec());
}

/// The program file: the source text of a program.
#[derive(Debug)]
pub struct ProgramFile;

/// The text that precedes the assembler's message when a program does not compile.
pub open spec fn compile_failure_prefix() -> Seq<char> {
    "Failed to compile program - "@
}

impl ProgramFile {
    /// Compiles the program that the text of a program file holds, resolving imported
    /// procedures with `provider`.
    ///
    /// The result is the program that the text stands for; if the text is faulty, it is
    /// the assembler's message after a fixed prefix.
    pub fn compile<P: ModuleProvider>(source: &str, provider: P) -> (out: Result<Program, String>)
        ensures
            match (out, compile_spec(lookup_of(&provider), source@)) {
                (Ok(program), Ok(tree)) => program@ == tree && well_formed(tree),
                (Err(message), Err(error)) => message@ == compile_failure_prefix()
                    + error.message(),
                _ => false,
            },
    {
        match Assembler::new().with_module_provider(provider).compile(source) {
            Ok(program) => Ok(program),
            Err(error) => Err(
                String::from_str("Failed to compile program - ").concat(error.to_string().as_str()),
            ),
        }
    }
}

/// The proof file: the bytes of a proof of execution.
#[derive(Debug)]
pub struct ProofFile;

impl ProofFile {
    /// Returns the size of a proof of `num_bytes` bytes in whole kilobytes.
    pub fn size_in_kb(num_bytes: usize) -> (out: usize)
        ensures
            out == num_bytes / 1024,
    {
        num_bytes / 1024
    }
}

/// Whether `c` is a hexadecimal digit, in either case.
pub open spec fn is_hex_digit(c: char) -> bool {
    ('0' <= c && c <= '9') || ('a' <= c && c <= 'f') || ('A' <= c && c <= 'F')
}

/// The number that a hexadecimal digit stands for.
pub open spec fn hex_value(c: char) -> int
    recommends
        is_hex_digit(c),
{
    if '0' <= c && c <= '9' {
        c as u32 - '0' as u32
    } else if 'a' <= c && c <= 'f' {
        c as u32 - 'a' as u32 + 10
    } else {
        c as u32 - 'A' as u32 + 10
    }
}

/// Whether a text is hexadecimal: an even number of hexadecimal digits.
pub open spec fn is_hex(text: Seq<char>) -> bool {
    &&& text.len() % 2 == 0
    &&& forall|i: int| 0 <= i < text.len() ==> is_hex_digit(#[trigger] text[i])
}

/// The bytes that a hexadecimal text writes: two digits for each byte, the high four bits
/// first.
pub open spec fn hex_bytes(text: Seq<char>) -> Seq<u8> {
    Seq::new(
        text.len() / 2,
        |i: int| (hex_value(text[2 * i]) * 16 + hex_value(text[2 * i + 1])) as u8,
    )
}

#[verifier::external_type_specification]
#[verifier::external_body]
pub struct ExFromHexError(FromHexError);

/// Calls `hex::decode`. It succeeds exactly on an even number of hexadecimal digits, in
/// either case, and then returns one byte for each two digits, the first digit giving the
/// high four bits.
#[verifier::external_body]
fn decode_hex(text: &str) -> (out: Result<Vec<u8>, FromHexError>)
    ensures
        out is Ok <==> is_hex(text@),
        out matches Ok(bytes) ==> bytes@ == hex_bytes(text@),
{
    hex::decode(text)
}

/// The text that precedes the error's own text when a hash is not hexadecimal.
pub open spec fn hex_failure_prefix() -> Seq<char> {
    "Failed to convert program hash to bytes "@
}

/// The text that precedes the error's own text when the bytes of a hash are no digest.
pub open spec fn digest_failure_prefix() -> Seq<char> {
    "Failed to deserialize program hash from bytes - "@
}

/// Writes the message for a hash text that `hex::decode` refused: the prefix followed by
/// what the `Display` impl of `FromHexError` writes for the error.
#[verifier::external_body]
fn hex_failure(error: &FromHexError) -> (out: String)
    ensures
        hex_failure_prefix().is_prefix_of(out@),
{
    format!("Failed to convert program hash to bytes {}", error)
}

/// Writes the message for hash bytes that `RpoDigest::read_from` refused: the prefix
/// followed by what the `Display` impl of `DeserializationError` writes for the error.
#[verifier::external_body]
fn digest_failure(error: &DeserializationError) -> (out: String)
    ensures
        digest_failure_prefix().is_prefix_of(out@),
{
    format!("Failed to deserialize program hash from bytes - {}", error)
}

/// The program hash: the digest of a program's root, written in hexadecimal.
#[derive(Debug)]
pub struct ProgramHash;

impl ProgramHash {
    /// Whether a text writes a program hash: it is hexadecimal, and its bytes start with
    /// the serialized form of a digest.
    pub open spec fn is_hash(text: Seq<char>) -> bool {
        is_hex(text) && holds_digest(hex_bytes(text))
    }

    /// Reads a program hash from its hexadecimal text.
    ///
    /// The result is the digest whose serialized form the text writes; it is an error
    /// message exactly if the text writes none.
    pub fn read(hash_hex_string: &String) -> (out: Result<Digest, String>)
        ensures
            out is Ok <==> Self::is_hash(hash_hex_string@),
            out matches Ok(digest) ==> digest@ == digest_words(hex_bytes(hash_hex_string@)),
            out matches Err(message) ==> if is_hex(hash_hex_string@) {
                digest_failure_prefix().is_prefix_of(message@)
            } else {
                hex_failure_prefix().is_prefix_of(message@)
            },
    {
        let bytes = match decode_hex(hash_hex_string.as_str()) {
            Ok(bytes) => bytes,
            Err(error) => {
                return Err(hex_failure(&error));
            },
        };
        match read_digest(bytes.as_slice()) {
            Ok(digest) => Ok(digest),
            Err(error) => Err(digest_failure(&error)),
        }
    }
}

} // verus!
