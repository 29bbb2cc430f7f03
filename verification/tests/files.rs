use miden::decimal::{parse_u64, u64_chars};
use miden::files::{check_numerals, InputFile, OutputFile, ProgramFile, ProgramHash, ProofFile};
use miden::inputs::{InputError, InputKind, ProgramInputs, ProgramOutputs};
use miden::{parse_module, Assembler, EmptyProvider, ModuleLibrary};

fn strings(texts: &[&str]) -> Vec<String> {
    texts.iter().map(|t| t.to_string()).collect()
}

fn chars(text: &str) -> Vec<char> {
    text.chars().collect()
}

#[test]
fn numerals_are_read_as_std_reads_them() {
    for text in ["0", "7", "007", "+5", "18446744073709551615", "1234567890"] {
        assert_eq!(text.parse::<u64>().ok(), parse_u64(&chars(text)), "{}", text);
        assert!(parse_u64(&chars(text)).is_some());
    }
    for text in ["", "+", "-1", "++1", "1 ", " 1", "1_0", "0x1", "18446744073709551616", "१"] {
        assert_eq!(text.parse::<u64>().ok(), parse_u64(&chars(text)), "{}", text);
        assert!(parse_u64(&chars(text)).is_none());
    }
}

#[test]
fn numbers_are_written_as_std_writes_them() {
    for value in [0, 1, 9, 10, 99, 100, 18446744069414584320, u64::MAX] {
        assert_eq!(value.to_string(), u64_chars(value).iter().collect::<String>());
        assert_eq!(Some(value), parse_u64(&u64_chars(value)));
    }
}

#[test]
fn input_file_values_are_parsed() {
    let file = InputFile {
        stack_init: strings(&["1", "2", "18446744069414584320"]),
        advice_tape: Some(strings(&["0", "+9"])),
    };
    assert!(file.is_readable());
    assert!(file.is_valid());
    assert_eq!(vec![1, 2, 18446744069414584320], file.stack_init());
    assert_eq!(vec![0, 9], file.advice_tape());
    let inputs = file.get_program_inputs();
    assert_eq!(&vec![1, 2, 18446744069414584320], inputs.stack_init());
    assert_eq!(&vec![0, 9], inputs.advice_tape());
}

#[test]
fn input_file_without_advice_tape_has_an_empty_one() {
    let file = InputFile { stack_init: Vec::new(), advice_tape: None };
    assert!(file.is_valid());
    assert!(file.stack_init().is_empty());
    assert!(file.advice_tape().is_empty());
    assert!(file.get_program_inputs().advice_tape().is_empty());
}

#[test]
fn a_missing_input_file_stands_for_empty_inputs() {
    let file = InputFile::empty();
    assert!(file.stack_init.is_empty());
    assert_eq!(Some(Vec::new()), file.advice_tape);
    assert!(file.is_valid());
    assert!(file.get_program_inputs().stack_init().is_empty());
}

#[test]
fn input_files_that_cannot_be_read_are_recognised() {
    let file = InputFile { stack_init: strings(&["1", "x"]), advice_tape: None };
    assert!(!file.is_readable());
    assert!(!file.is_valid());
    let file = InputFile { stack_init: strings(&["1"]), advice_tape: Some(strings(&["-3"])) };
    assert!(!file.is_readable());
    let file = InputFile { stack_init: strings(&["18446744069414584321"]), advice_tape: None };
    assert!(file.is_readable());
    assert!(!file.is_valid());
    assert!(check_numerals(&strings(&["3", "4"])));
    assert!(!check_numerals(&strings(&["3", ""])));
}

#[test]
fn program_inputs_must_be_field_elements() {
    let inputs = ProgramInputs::new(&vec![3, 18446744069414584320], &vec![5]).unwrap();
    assert_eq!(&vec![3, 18446744069414584320], inputs.stack_init());
    assert_eq!(&vec![5], inputs.advice_tape());
    assert_eq!(
        InputError { kind: InputKind::StackInit, value: 18446744069414584321 },
        ProgramInputs::new(&vec![1, 18446744069414584321, u64::MAX], &vec![u64::MAX]).unwrap_err()
    );
    assert_eq!(
        InputError { kind: InputKind::AdviceTape, value: u64::MAX },
        ProgramInputs::new(&vec![1], &vec![2, u64::MAX]).unwrap_err()
    );
}

#[test]
fn output_files_round_trip() {
    let file = OutputFile::new(ProgramOutputs::new(vec![0, 42, u64::MAX], vec![7]));
    assert_eq!(strings(&["0", "42", "18446744073709551615"]), file.stack);
    assert_eq!(strings(&["7"]), file.overflow_addrs);
    assert!(file.is_readable());
    let outputs = file.outputs();
    assert_eq!(&vec![0, 42, u64::MAX], outputs.stack());
    assert_eq!(&vec![7], outputs.overflow_addrs());
    let broken = OutputFile { stack: strings(&["1"]), overflow_addrs: strings(&["one"]) };
    assert!(!broken.is_readable());
}

#[test]
fn program_files_compile_or_say_why_not() {
    let program = ProgramFile::compile("begin push.1 push.2 add end", EmptyProvider).unwrap();
    assert_eq!("begin span pad incr push(2) add end end", program.to_string());
    assert_eq!(
        "Failed to compile program - dangling instructions after program end",
        ProgramFile::compile("begin add end mul", EmptyProvider).unwrap_err()
    );
    assert_eq!(
        "Failed to compile program - source code cannot be an empty string",
        ProgramFile::compile("", EmptyProvider).unwrap_err()
    );
    let mut library = ModuleLibrary::new();
    library.add("std::math".to_string(), parse_module("export.twice dup add end").unwrap());
    let program =
        ProgramFile::compile("use.std::math begin exec.math::twice end", library).unwrap();
    assert_eq!("begin span dup0 add end end", program.to_string());
}

#[test]
fn proof_sizes_are_whole_kilobytes() {
    assert_eq!(0, ProofFile::size_in_kb(1023));
    assert_eq!(1, ProofFile::size_in_kb(1024));
    assert_eq!(97, ProofFile::size_in_kb(100_000));
}

#[test]
fn program_hashes_are_read_from_hex() {
    let program = Assembler::default().compile("begin push.1 push.2 add end").unwrap();
    let digest = program.hash();
    let mut bytes = Vec::new();
    for element in digest.elements {
        bytes.extend_from_slice(&element.to_le_bytes());
    }
    let lower = hex::encode(&bytes);
    let upper = hex::encode_upper(&bytes);
    assert_eq!(64, lower.len());
    assert_eq!(Ok(digest), ProgramHash::read(&lower));
    assert_eq!(Ok(digest), ProgramHash::read(&upper));
    let mut longer = lower.clone();
    longer.push_str("ffff");
    assert_eq!(Ok(digest), ProgramHash::read(&longer));
}

#[test]
fn program_hash_bytes_are_little_endian_words() {
    let text = "0100000000000000000100000000000000000000ffffffff00000000ffffffff";
    let digest = ProgramHash::read(&text.to_string()).unwrap();
    assert_eq!([1, 256, 0xffff_ffff_0000_0000, 0xffff_ffff_0000_0000], digest.elements);
}

#[test]
fn program_hashes_that_are_no_digest_are_refused() {
    let odd = ProgramHash::read(&"abc".to_string()).unwrap_err();
    assert!(odd.starts_with("Failed to convert program hash to bytes "), "{}", odd);
    let no_hex = ProgramHash::read(&"zz".to_string()).unwrap_err();
    assert!(no_hex.starts_with("Failed to convert program hash to bytes "), "{}", no_hex);
    let unicode = ProgramHash::read(&"é0".to_string()).unwrap_err();
    assert!(unicode.starts_with("Failed to convert program hash to bytes "), "{}", unicode);
    let short = ProgramHash::read(&"00".repeat(31)).unwrap_err();
    assert!(short.starts_with("Failed to deserialize program hash from bytes - "), "{}", short);
    let empty = ProgramHash::read(&String::new()).unwrap_err();
    assert!(empty.starts_with("Failed to deserialize program hash from bytes - "), "{}", empty);
    // the first word is the modulus itself, which is no field element
    let mut text = "01000000ffffffff".to_string();
    text.push_str(&"00".repeat(24));
    let large = ProgramHash::read(&text).unwrap_err();
    assert!(large.starts_with("Failed to deserialize program hash from bytes - "), "{}", large);
    // one less is the largest field element
    let mut text = "00000000ffffffff".to_string();
    text.push_str(&"00".repeat(24));
    assert_eq!([18446744069414584320, 0, 0, 0], ProgramHash::read(&text).unwrap().elements);
}
