use miden::assembler::Assembler;
use miden::builder::{assemble_items, build_items, Item, MAX_IMPORT_DEPTH};
use miden::errors::AssemblyError;
use miden::operation::Operation;
use miden::parser::{parse_module, ModuleAst};
use miden::procedures::{
    same_id, EmptyProvider, ModuleLibrary, ModuleProvider, NamedModuleAst, ProcedureId,
};
use miden::tokens::TokenStream;

struct Library {
    modules: Vec<(String, ModuleAst)>,
}

impl Library {
    fn of(sources: &[(&str, &str)]) -> Library {
        Library {
            modules: sources
                .iter()
                .map(|(path, source)| (path.to_string(), parse_module(source).unwrap()))
                .collect(),
        }
    }
}

impl ModuleProvider for Library {
    fn get_module(&self, id: &ProcedureId) -> Option<NamedModuleAst<'_>> {
        for (path, module) in self.modules.iter() {
            for procedure in module.local_procs.iter() {
                if ProcedureId::from_name(&procedure.name, path) == *id {
                    return Some(NamedModuleAst::new(path, module));
                }
            }
        }
        None
    }
}

struct Stubborn {
    module: ModuleAst,
}

impl ModuleProvider for Stubborn {
    fn get_module(&self, _id: &ProcedureId) -> Option<NamedModuleAst<'_>> {
        Some(NamedModuleAst::new("any::path", &self.module))
    }
}

#[test]
fn procedure_ids_are_blake3_digests_of_qualified_names() {
    let id = ProcedureId::from_name("iszero_unsafe", "dummy::math::u256");
    let expected: [u8; 32] = miden_crypto::hash::blake::Blake3_256::hash(
        "dummy::math::u256::iszero_unsafe".as_bytes(),
    )
    .into();
    assert_eq!(expected, id.0);
    assert_ne!(id, ProcedureId::from_name("iszero_unsafe", "dummy::math::u512"));
    assert_ne!(id, ProcedureId::from_name("iszero", "dummy::math::u256"));
    assert_eq!(id, ProcedureId::from_name("iszero_unsafe", "dummy::math::u256"));
}

#[test]
fn named_modules_hand_back_what_they_were_given() {
    let module = parse_module("export.f add end").unwrap();
    let named = NamedModuleAst::new("a::b", &module);
    assert_eq!("a::b", named.path());
    assert_eq!("f", named.module().local_procs[0].name);
}

#[test]
fn the_empty_provider_has_no_module() {
    let id = ProcedureId::from_name("f", "a");
    assert!(EmptyProvider.get_module(&id).is_none());
}

#[test]
fn modules_keep_their_declarations() {
    let module = parse_module("use.a::b use.c proc.f.2 add mul end export.g exec.f end").unwrap();
    assert_eq!(2, module.imports.len());
    assert_eq!("b", module.imports[0].alias);
    assert_eq!("a::b", module.imports[0].path);
    assert_eq!("c", module.imports[1].alias);
    assert_eq!("c", module.imports[1].path);
    assert_eq!(2, module.local_procs.len());
    assert_eq!("f", module.local_procs[0].name);
    assert_eq!(2, module.local_procs[0].num_locals);
    assert!(!module.local_procs[0].is_export);
    assert_eq!(vec!["add", "mul"], module.local_procs[0].body);
    assert_eq!("g", module.local_procs[1].name);
    assert_eq!(0, module.local_procs[1].num_locals);
    assert!(module.local_procs[1].is_export);
    assert_eq!(vec!["exec.f"], module.local_procs[1].body);
    assert!(module.body.is_none());
    let program = parse_module("begin add if.true mul end end").unwrap();
    assert_eq!(vec!["add", "if.true", "mul", "end"], program.body.unwrap());
}

#[test]
fn imported_procedures_are_inlined_with_their_frames() {
    let library = Library::of(&[("lib::mem", "export.keep.1 loc_store.0 end")]);
    let assembler = Assembler::new().with_module_provider(library);
    let program = assembler.compile("use.lib::mem begin push.4 exec.mem::keep add end").unwrap();
    assert_eq!(
        "begin span push(4) push(1) fmpupdate pad fmpadd mstore drop \
         push(18446744069414584320) fmpupdate add end end",
        program.to_string()
    );
}

#[test]
fn imported_procedures_call_within_their_own_module() {
    let library = Library::of(&[
        ("lib::a", "proc.helper mul end export.f exec.helper add end"),
        ("lib::b", "use.lib::a export.g exec.a::f neg end"),
    ]);
    let assembler = Assembler::new().with_module_provider(library);
    let program = assembler
        .compile("use.lib::b proc.helper inv end begin exec.b::g exec.helper end")
        .unwrap();
    assert_eq!("begin span mul add neg inv end end", program.to_string());
}

#[test]
fn the_last_import_of_an_alias_wins() {
    let library = Library::of(&[("one::m", "export.f add end"), ("two::m", "export.f mul end")]);
    let assembler = Assembler::new().with_module_provider(library);
    let program = assembler.compile("use.one::m use.two::m begin exec.m::f end").unwrap();
    assert_eq!("begin span mul end end", program.to_string());
}

#[test]
fn a_module_without_the_procedure_does_not_define_it() {
    let stubborn = Stubborn { module: parse_module("export.f add end").unwrap() };
    let assembler = Assembler::new().with_module_provider(stubborn);
    assert_eq!(
        "begin span add end end",
        assembler.compile("use.x::y begin exec.y::f end").unwrap().to_string()
    );
    assert_eq!(
        AssemblyError::UndefinedProcedure { name: "g".to_string() },
        assembler.compile("use.x::y begin exec.y::g end").unwrap_err()
    );
}

#[test]
fn imports_that_never_end_are_cut_off() {
    let stubborn = Stubborn { module: parse_module("use.x::y export.f add exec.y::f end").unwrap() };
    let assembler = Assembler::new().with_module_provider(stubborn);
    let error = assembler.compile("use.x::y begin exec.y::f end").unwrap_err();
    assert_eq!(AssemblyError::ImportNestingTooDeep, error);
    assert_eq!("imported procedures are nested too deeply", error.to_string());
}

#[test]
fn bodies_of_hand_made_modules_are_checked_when_built() {
    let module = ModuleAst { imports: Vec::new(), local_procs: Vec::new(), body: None };
    let build = |tokens: &[&str]| {
        let tokens: Vec<String> = tokens.iter().map(|t| t.to_string()).collect();
        build_items(&EmptyProvider, &module, 0, &tokens, 0, MAX_IMPORT_DEPTH)
    };
    assert_eq!(AssemblyError::DanglingEnd, build(&["add", "end"]).unwrap_err());
    assert_eq!(AssemblyError::EmptyCodeBlock, build(&[]).unwrap_err());
    assert_eq!(AssemblyError::EmptyCodeBlock, build(&["while.true", "end"]).unwrap_err());
    assert_eq!(
        AssemblyError::UnexpectedBodyTermination { token: "begin".to_string() },
        build(&["begin"]).unwrap_err()
    );
    assert_eq!("end without matching opener", AssemblyError::DanglingEnd.to_string());
    let items = build(&["add", "while.true", "mul", "end"]).unwrap();
    assert_eq!(2, items.len());
    assert!(matches!(items[0], Item::Op(Operation::Add)));
    assert_eq!(
        "join span add end while.true span mul end end end",
        assemble_items(items).to_string()
    );
}

#[test]
fn token_streams_are_read_from_front_to_back() {
    let mut stream = TokenStream::new("add # all\n mul").unwrap();
    assert_eq!(2, stream.num_tokens());
    assert_eq!(0, stream.pos());
    assert!(!stream.eof());
    assert_eq!(Some(&"add".to_string()), stream.read());
    assert_eq!(Some(&"add".to_string()), stream.read());
    stream.advance();
    assert_eq!(1, stream.pos());
    assert_eq!(Some(&"mul".to_string()), stream.read());
    stream.advance();
    assert!(stream.eof());
    assert_eq!(None, stream.read());
    stream.advance();
    assert_eq!(2, stream.pos());
    assert_eq!(AssemblyError::EmptySource, TokenStream::new(" # nothing").unwrap_err());
}

#[test]
fn libraries_answer_with_the_first_module_that_defines_the_procedure() {
    let mut library = ModuleLibrary::new();
    library.add("one::m".to_string(), parse_module("export.f add end").unwrap());
    library.add("two::m".to_string(), parse_module("export.f mul end export.g neg end").unwrap());
    library.add("two::m".to_string(), parse_module("export.g inv end").unwrap());
    let found = library.get_module(&ProcedureId::from_name("f", "two::m")).unwrap();
    assert_eq!("two::m", found.path());
    assert_eq!(2, found.module().local_procs.len());
    let found = library.get_module(&ProcedureId::from_name("g", "two::m")).unwrap();
    assert_eq!(2, found.module().local_procs.len());
    assert!(library.get_module(&ProcedureId::from_name("g", "one::m")).is_none());
    assert!(library.get_module(&ProcedureId::from_name("h", "two::m")).is_none());
    assert!(ModuleLibrary::new().get_module(&ProcedureId::from_name("f", "one::m")).is_none());
}

#[test]
fn libraries_resolve_imports() {
    let mut library = ModuleLibrary::new();
    library.add("std::math".to_string(), parse_module("export.twice dup add end").unwrap());
    let assembler = Assembler::new().with_module_provider(library);
    let program = assembler.compile("use.std::math begin push.3 exec.math::twice end").unwrap();
    assert_eq!("begin span push(3) dup0 add end end", program.to_string());
    assert_eq!(
        AssemblyError::UndefinedProcedure { name: "thrice".to_string() },
        assembler.compile("use.std::math begin exec.math::thrice end").unwrap_err()
    );
}

#[test]
fn identifiers_are_compared_byte_by_byte() {
    let one = ProcedureId([7; 32]);
    let mut other = ProcedureId([7; 32]);
    assert!(same_id(&one, &other));
    other.0[31] = 8;
    assert!(!same_id(&one, &other));
    other.0[31] = 7;
    other.0[0] = 0;
    assert!(!same_id(&one, &other));
}
