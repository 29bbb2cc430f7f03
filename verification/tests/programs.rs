use miden::assembler::Assembler;
use miden::errors::{AssemblyError, BlockKind, ElseFault};
use miden::tokens::{strip_comments, tokenize};

fn text_of(source: &str) -> String {
    Assembler::default().compile(source).unwrap().to_string()
}

fn error_of(source: &str) -> AssemblyError {
    Assembler::default().compile(source).unwrap_err()
}

#[test]
fn compiling_twice_gives_the_same_program() {
    let source = "proc.foo.2 loc_store.1 end begin push.5 if.true exec.foo else add end mul end";
    let assembler = Assembler::default();
    let first = assembler.compile(source).unwrap();
    let second = assembler.compile(source).unwrap();
    assert_eq!(first.to_string(), second.to_string());
    assert_eq!(first.hash(), second.hash());
}

#[test]
fn compiling_twice_gives_the_same_error() {
    let assembler = Assembler::default();
    let first = assembler.compile("begin push.1 exec.missing end").unwrap_err();
    let second = assembler.compile("begin push.1 exec.missing end").unwrap_err();
    assert_eq!(first, second);
}

#[test]
fn different_programs_have_different_digests() {
    let assembler = Assembler::default();
    let add = assembler.compile("begin add end").unwrap();
    let mul = assembler.compile("begin mul end").unwrap();
    let push = assembler.compile("begin push.7 end").unwrap();
    let other_push = assembler.compile("begin push.8 end").unwrap();
    assert_ne!(add.hash(), mul.hash());
    assert_ne!(push.hash(), other_push.hash());
}

#[test]
fn four_siblings_lean_left() {
    let source = "begin add if.true mul end neg while.true inv end end";
    let expected = "begin \
        join \
            join \
                join \
                    span add end \
                    if.true span mul end else span noop end end \
                end \
                span neg end \
            end \
            while.true span inv end end \
        end \
        end";
    assert_eq!(expected, text_of(source));
}

#[test]
fn five_siblings_lean_left() {
    let source = "begin add while.true mul end neg while.true inv end not end";
    let expected = "begin \
        join \
            join \
                join \
                    join \
                        span add end \
                        while.true span mul end end \
                    end \
                    span neg end \
                end \
                while.true span inv end end \
            end \
            span not end \
        end \
        end";
    assert_eq!(expected, text_of(source));
}

#[test]
fn adjacent_control_blocks_join_without_spans() {
    let source = "begin while.true add end while.true mul end end";
    let expected = "begin join while.true span add end end while.true span mul end end end end";
    assert_eq!(expected, text_of(source));
}

#[test]
fn inlining_equals_writing_the_body_in_place() {
    let with_call = "proc.f push.3 if.true mul end neg end \
        begin push.2 add exec.f push.9 end";
    let in_place = "begin push.2 add push.3 if.true mul end neg push.9 end";
    let assembler = Assembler::default();
    let first = assembler.compile(with_call).unwrap();
    let second = assembler.compile(in_place).unwrap();
    assert_eq!(first.to_string(), second.to_string());
    assert_eq!(first.hash(), second.hash());
    assert_eq!(
        "begin join join span push(2) add push(3) end \
         if.true span mul end else span noop end end end \
         span neg push(9) end end end",
        first.to_string()
    );
}

#[test]
fn every_call_site_gets_its_own_copy() {
    let source = "proc.f while.true add end end begin exec.f exec.f end";
    let expected = "begin join while.true span add end end while.true span add end end end end";
    assert_eq!(expected, text_of(source));
}

#[test]
fn locals_wrap_the_inlined_body_in_a_frame() {
    let source = "proc.f.3 loc_load.2 loc_storew.1 end begin add exec.f mul end";
    let expected = "begin span add push(3) fmpupdate \
        push(18446744069414584319) fmpadd mload \
        push(18446744069414584320) fmpadd mstorew \
        push(18446744069414584318) fmpupdate mul end end";
    assert_eq!(expected, text_of(source));
}

#[test]
fn comments_do_not_change_the_program() {
    let source = "# leading\nproc.f # the callee\n add#glued\nend begin push.1 # one\n exec.f end # last";
    let stripped = strip_comments(source);
    assert_eq!("\nproc.f \n add\nend begin push.1 \n exec.f end ", stripped);
    assert_eq!(tokenize(source), tokenize(&stripped));
    let assembler = Assembler::default();
    let first = assembler.compile(source).unwrap();
    let second = assembler.compile(&stripped).unwrap();
    assert_eq!(first.to_string(), second.to_string());
    assert_eq!(first.hash(), second.hash());
    assert_eq!("begin span pad incr add end end", first.to_string());
}

#[test]
fn tokens_are_split_at_whitespace_and_comments() {
    assert_eq!(vec!["a", "b.1", "c"], tokenize(" a\tb.1\r\n# x y\n\x0cc"));
    assert_eq!(vec!["add", "mul"], tokenize("add#mul\nmul"));
    assert!(tokenize("# only a comment").is_empty());
    assert!(tokenize("").is_empty());
}

#[test]
fn comment_only_source_is_empty() {
    assert_eq!(AssemblyError::EmptySource, error_of("# nothing here"));
    assert_eq!(AssemblyError::EmptySource, error_of("\n\t "));
}

#[test]
fn scenario_assertz() {
    assert_eq!("begin span pad eqz assert end end", text_of("begin push.0 assertz end"));
}

#[test]
fn push_takes_its_parameter_modulo_the_prime() {
    assert_eq!("begin span pad end end", text_of("begin push.18446744069414584321 end"));
    assert_eq!("begin span pad incr end end", text_of("begin push.18446744069414584322 end"));
    assert_eq!(
        "begin span push(18446744069414584320) end end",
        text_of("begin push.18446744069414584320 end")
    );
    assert_eq!("begin span push(4294967294) end end", text_of("begin push.18446744073709551615 end"));
    assert_eq!("begin span push(2) end end", text_of("begin push.+2 end"));
}

#[test]
fn push_rejects_what_is_no_number() {
    let error = error_of("begin push.18446744073709551616 end");
    assert_eq!(
        "malformed instruction `push.18446744073709551616`: parameter '18446744073709551616' is invalid",
        error.to_string()
    );
    assert_eq!(
        "malformed instruction `push.0x10`: parameter '0x10' is invalid",
        error_of("begin push.0x10 end").to_string()
    );
    assert_eq!(
        "malformed instruction `push.`: parameter '' is invalid",
        error_of("begin push. end").to_string()
    );
    assert_eq!(
        "malformed instruction 'push': missing required parameter",
        error_of("begin push end").to_string()
    );
    assert_eq!(
        "malformed instruction `push.1.2`: parameter '2' is invalid",
        error_of("begin push.1.2 end").to_string()
    );
}

#[test]
fn lowerings_of_the_instruction_table() {
    assert_eq!("begin span eqz end end", text_of("begin eq.0 end"));
    assert_eq!("begin span push(5) eq end end", text_of("begin eq.5 end"));
    assert_eq!("begin span eq end end", text_of("begin eq end"));
    assert_eq!("begin span neg add end end", text_of("begin sub end"));
    assert_eq!("begin span u32madd drop end end", text_of("begin u32wrapping_madd end"));
    assert_eq!("begin span u32add3 drop end end", text_of("begin u32wrapping_add3 end"));
    assert_eq!("begin span inv mul end end", text_of("begin div end"));
    assert_eq!("begin span dup0 dup7 end end", text_of("begin dup dup.7 end"));
    assert_eq!("begin span pad dup9 add dup15 end end", text_of("begin dup.8 dup.15 end"));
    assert_eq!("begin span movup2 movdn8 end end", text_of("begin movup.2 movdn.8 end"));
    assert_eq!("begin span swapw swapw2 swapw3 end end", text_of("begin swapw swapw.2 swapw.3 end"));
    assert_eq!("begin span read read read end end", text_of("begin adv_push.3 end"));
    assert_eq!("begin span drop drop drop drop end end", text_of("begin dropw end"));
    assert_eq!("begin span push(7) mload mstore drop end end", text_of("begin mem_load.7 mem_store end"));
}

#[test]
fn parameters_out_of_range_are_rejected() {
    assert_eq!(
        "malformed instruction `dup.16`: parameter '16' is invalid",
        error_of("begin dup.16 end").to_string()
    );
    assert_eq!(
        "malformed instruction `movup.1`: parameter '1' is invalid",
        error_of("begin movup.1 end").to_string()
    );
    assert_eq!(
        "malformed instruction `adv_push.17`: parameter '17' is invalid",
        error_of("begin adv_push.17 end").to_string()
    );
    assert_eq!(
        "malformed instruction `add.1`: parameter '1' is invalid",
        error_of("begin add.1 end").to_string()
    );
}

#[test]
fn locals_exist_only_inside_their_procedure() {
    assert_eq!(
        "malformed instruction `loc_load.0`: parameter '0' is invalid",
        error_of("begin loc_load.0 end").to_string()
    );
    assert_eq!(
        "malformed instruction `loc_store.2`: parameter '2' is invalid",
        error_of("proc.f.2 loc_store.2 end begin exec.f end").to_string()
    );
    assert_eq!(
        "begin span push(2) fmpupdate push(18446744069414584320) fmpadd mstore drop \
         push(18446744069414584319) fmpupdate end end",
        text_of("proc.f.2 loc_store.1 end begin exec.f end")
    );
}

#[test]
fn empty_branches_become_noop() {
    assert_eq!(
        "begin if.true span noop end else span noop end end end",
        text_of("begin if.true end end")
    );
    assert_eq!(
        "begin if.true span add end else span noop end end end",
        text_of("begin if.true add else end end")
    );
    assert_eq!(
        "begin if.true span noop end else span mul end end end",
        text_of("begin if.true else mul end end")
    );
}

#[test]
fn empty_loops_and_repetitions_are_rejected() {
    assert_eq!(AssemblyError::EmptyCodeBlock, error_of("begin add while.true end end"));
    assert_eq!(AssemblyError::EmptyCodeBlock, error_of("begin add repeat.3 end end"));
    assert_eq!(AssemblyError::EmptyCodeBlock, error_of("proc.f end begin add end"));
    assert_eq!(AssemblyError::EmptyCodeBlock, error_of("begin end"));
}

#[test]
fn repeat_unrolls_blocks_too() {
    let source = "begin repeat.2 add if.true mul end end end";
    let expected = "begin join join join span add end \
        if.true span mul end else span noop end end end \
        span add end end \
        if.true span mul end else span noop end end end end";
    assert_eq!(expected, text_of(source));
    assert_eq!("begin span add add add end end", text_of("begin repeat.3 add end end"));
    assert_eq!("begin span add end end", text_of("begin repeat.1 add end end"));
}

#[test]
fn repeat_needs_a_positive_count() {
    assert_eq!(
        "malformed instruction `repeat.0`: parameter '0' is invalid",
        error_of("begin repeat.0 add end end").to_string()
    );
    assert_eq!(
        "malformed instruction 'repeat': missing required parameter",
        error_of("begin repeat add end end").to_string()
    );
    assert_eq!(
        "malformed instruction `repeat.4294967296`: parameter '4294967296' is invalid",
        error_of("begin repeat.4294967296 add end end").to_string()
    );
}

#[test]
fn keywords_need_their_qualifier() {
    assert_eq!(
        "malformed instruction 'if': missing required parameter",
        error_of("begin if add end end").to_string()
    );
    assert_eq!(
        "malformed instruction `if.false`: parameter 'false' is invalid",
        error_of("begin if.false add end end").to_string()
    );
    assert_eq!(
        "malformed instruction `else.x`: parameter 'x' is invalid",
        error_of("begin if.true add else.x mul end end").to_string()
    );
    assert_eq!(
        "malformed instruction `end.1`: parameter '1' is invalid",
        error_of("begin add end.1").to_string()
    );
}

#[test]
fn every_structural_error_has_its_variant() {
    assert_eq!(AssemblyError::MissingEndFor(BlockKind::Begin), error_of("begin add"));
    assert_eq!(AssemblyError::MissingEndFor(BlockKind::Proc), error_of("proc.f add"));
    assert_eq!(AssemblyError::MissingEndFor(BlockKind::If), error_of("begin if.true add"));
    assert_eq!(AssemblyError::MissingEndFor(BlockKind::While), error_of("begin while.true add"));
    assert_eq!(AssemblyError::MissingEndFor(BlockKind::Repeat), error_of("begin repeat.2 add"));
    assert_eq!(AssemblyError::DanglingElse(ElseFault::NoEnd), error_of("begin if.true add else"));
    assert_eq!(AssemblyError::DanglingElse(ElseFault::NoIf), error_of("begin else add end"));
    assert_eq!(AssemblyError::DanglingAfterProgram, error_of("begin add end end"));
    assert_eq!(AssemblyError::ExportedInProgram, error_of("export.f add end begin add end"));
    assert_eq!("proc without matching end", error_of("proc.f add").to_string());
    assert_eq!(
        "a program cannot declare exported procedures",
        error_of("export.f add end begin add end").to_string()
    );
}

#[test]
fn declarations_inside_bodies_end_them() {
    assert_eq!(
        AssemblyError::UnexpectedBodyTermination { token: "use.a::b".to_string() },
        error_of("begin add use.a::b end")
    );
    assert_eq!(
        AssemblyError::UnexpectedBodyTermination { token: "export.g".to_string() },
        error_of("proc.f add export.g add end end begin add end")
    );
    assert_eq!(
        AssemblyError::UnexpectedBodyTermination { token: "begin".to_string() },
        error_of("begin if.true begin end end")
    );
}

#[test]
fn what_is_no_declaration_is_no_module() {
    assert_eq!(AssemblyError::ExpectedBegin { found: "add".to_string() }, error_of("add begin add end"));
    assert_eq!(
        AssemblyError::ExpectedBegin { found: "push.x".to_string() },
        error_of("proc.f add end push.x")
    );
    assert_eq!(AssemblyError::ExpectedBegin { found: String::new() }, error_of("proc.f add end"));
    assert_eq!(
        "unexpected token: expected 'begin' but was ''",
        error_of("proc.f add end").to_string()
    );
}

#[test]
fn closers_between_declarations_close_nothing() {
    assert_eq!(AssemblyError::DanglingEnd, error_of("end"));
    assert_eq!(AssemblyError::DanglingEnd, error_of("proc.f add end end begin add end"));
    assert_eq!(AssemblyError::DanglingElse(ElseFault::NoIf), error_of("proc.f add end else"));
    assert_eq!(
        AssemblyError::ExpectedBegin { found: "end.x".to_string() },
        error_of("proc.f add end end.x")
    );
}

#[test]
fn unknown_instructions_are_named() {
    let error = error_of("begin frobnicate end");
    assert_eq!(AssemblyError::UnknownInstruction { token: "frobnicate".to_string() }, error);
    assert_eq!("instruction 'frobnicate' is invalid", error.to_string());
    assert_eq!(
        AssemblyError::UnknownInstruction { token: "frob.1".to_string() },
        error_of("begin frob.1 end")
    );
}

#[test]
fn procedure_labels_are_identifiers() {
    assert_eq!(
        AssemblyError::InvalidProcedureLabel { label: "1st".to_string() },
        error_of("proc.1st add end begin add end")
    );
    assert_eq!(
        AssemblyError::InvalidProcedureLabel { label: String::new() },
        error_of("proc. add end begin add end")
    );
    assert_eq!(
        AssemblyError::InvalidProcedureLabel { label: "a-b".to_string() },
        error_of("begin exec.a-b end")
    );
    assert_eq!(
        AssemblyError::InvalidProcedureLabel { label: "a::b::c".to_string() },
        error_of("begin exec.a::b::c end")
    );
    assert_eq!(
        AssemblyError::InvalidProcedureLabel { label: "a:b".to_string() },
        error_of("begin exec.a:b end")
    );
    assert_eq!("begin span add end end", text_of("proc._x9 add end begin exec._x9 end"));
    assert_eq!(
        "malformed instruction 'proc': missing required parameter",
        error_of("proc add end begin add end").to_string()
    );
    assert_eq!(
        "malformed instruction `proc.f.x`: parameter 'x' is invalid",
        error_of("proc.f.x add end begin add end").to_string()
    );
}

#[test]
fn procedures_see_only_earlier_procedures() {
    assert_eq!(
        AssemblyError::UndefinedProcedure { name: "g".to_string() },
        error_of("proc.f exec.g end proc.g add end begin exec.f end")
    );
    assert_eq!(
        AssemblyError::UndefinedProcedure { name: "f".to_string() },
        error_of("proc.f add exec.f end begin exec.f end")
    );
    assert_eq!(
        "begin span add mul add end end",
        text_of("proc.g add end proc.f exec.g mul end begin exec.f exec.g end")
    );
}

#[test]
fn an_uncalled_procedure_is_still_checked() {
    assert_eq!(
        AssemblyError::UnknownInstruction { token: "frob".to_string() },
        error_of("proc.f frob end begin add end")
    );
    assert_eq!("begin span add end end", text_of("proc.f exec.g end begin add end"));
}

#[test]
fn the_first_error_in_source_order_wins() {
    assert_eq!(
        AssemblyError::UnknownInstruction { token: "frob".to_string() },
        error_of("begin frob if.true add")
    );
    assert_eq!(
        AssemblyError::DuplicateProcedureLabel { label: "f".to_string() },
        error_of("proc.f add end proc.f frob end begin add end")
    );
}

#[test]
fn imports_must_be_declared() {
    let error = error_of("begin exec.math::add end");
    assert_eq!(AssemblyError::UndefinedImport { alias: "math".to_string() }, error);
    assert_eq!("undefined import: math", error.to_string());
    let error = error_of("use.std::math begin exec.math::add end");
    assert_eq!(AssemblyError::UndefinedProcedure { name: "add".to_string() }, error);
    assert_eq!("undefined procedure: add", error.to_string());
    assert_eq!(
        "malformed instruction `use.std:math`: parameter 'std:math' is invalid",
        error_of("use.std:math begin add end").to_string()
    );
    assert_eq!(
        "malformed instruction 'use': missing required parameter",
        error_of("use begin add end").to_string()
    );
}
