//! Procedure identifiers and the providers that resolve them to modules.

use crate::hasher::{blake3_256, blake3_hash};
use crate::parser::{ModuleAst, ModuleSpec};
use vstd::prelude::*;
use vstd::utf8::encode_utf8;

verus! {

/// The identifier of a procedure: the digest of its fully qualified name.
#[derive(Clone, Copy, Debug, PartialEq, Eq, Hash)]
pub struct ProcedureId(pub [u8; 32]);

impl View for ProcedureId {
    type V = Seq<u8>;

    open spec fn view(&self) -> Seq<u8> {
        self.0@
    }
}

/// The fully qualified name of the procedure `name` of the module at `path`.
pub open spec fn qualified_name(path: Seq<char>, name: Seq<char>) -> Seq<char> {
    path + "::"@ + name
}

/// The identifier of the procedure `name` of the module at `path`: the BLAKE3
/// digest of the UTF-8 bytes of its fully qualified name.
pub open spec fn procedure_id(path: Seq<char>, name: Seq<char>) -> Seq<u8> {
    blake3_256(encode_utf8(qualified_name(path, name)))
}

impl ProcedureId {
    /// Returns the identifier of the procedure `name` of the module at `path`.
    pub fn from_name(name: &str, path: &str) -> (out: ProcedureId)
        ensures
            out@ == procedure_id(path@, name@),
    {
        let mut full = String::from_str(path);
        full.append("::");
        full.append(name);
        ProcedureId(blake3_hash(full.as_str().as_bytes()))
    }
}

/// A module together with the path that it is imported by.
#[derive(Clone, Copy, Debug)]
pub struct NamedModuleAst<'a> {
    path: &'a str,
    module: &'a ModuleAst,
}

/// The mathematical content of a [`NamedModuleAst`].
pub struct NamedModuleSpec {
    pub path: Seq<char>,
    pub module: ModuleSpec,
}

impl<'a> View for NamedModuleAst<'a> {
    type V = NamedModuleSpec;

    closed spec fn view(&self) -> NamedModuleSpec {
        NamedModuleSpec { path: self.path@, module: self.module@ }
    }
}

impl<'a> NamedModuleAst<'a> {
    /// Returns `module` under the path `path`.
    pub fn new(path: &'a str, module: &'a ModuleAst) -> (out: Self)
        ensures
            out@ == (NamedModuleSpec { path: path@, module: module@ }),
    {
        NamedModuleAst { path, module }
    }

    /// Returns the path of the module.
    pub fn path(&self) -> (out: &'a str)
        ensures
            out@ == self@.path,
    {
        self.path
    }

    /// Returns the module.
    pub fn module(&self) -> (out: &'a ModuleAst)
        ensures
            out@ == self@.module,
    {
        self.module
    }
}

/// The content of an optional module.
pub open spec fn named_view(found: Option<NamedModuleAst<'_>>) -> Option<NamedModuleSpec> {
    match found {
        Some(named) => Some(named@),
        None => None,
    }
}

/// A source of modules for imported procedures.
///
/// A provider answers each identifier with the module that defines the procedure of that
/// identifier, or with nothing. Its answers do not change: `get_module` returns what
/// `module_for` says.
pub trait ModuleProvider {
    /// The module that the provider has for the identifier `id`.
    closed spec fn module_for(&self, id: Seq<u8>) -> Option<NamedModuleSpec> {
        arbitrary()
    }

    /// Returns the module that defines the procedure with the identifier `id`, if the
    /// provider has one.
    fn get_module(&self, id: &ProcedureId) -> (out: Option<NamedModuleAst<'_>>)
        ensures
            named_view(out) == self.module_for(id@),
    ;
}

/// The provider that has no module.
#[derive(Clone, Copy, Debug)]
pub struct EmptyProvider;

impl ModuleProvider for EmptyProvider {
    open spec fn module_for(&self, id: Seq<u8>) -> Option<NamedModuleSpec> {
        None
    }

    fn get_module(&self, id: &ProcedureId) -> (out: Option<NamedModuleAst<'_>>) {
        None
    }
}

impl Default for EmptyProvider {
    fn default() -> (out: Self) {
        EmptyProvider
    }
}

/// Tells whether two identifiers are the same.
pub fn same_id(one: &ProcedureId, other: &ProcedureId) -> (out: bool)
    ensures
        out == (one@ == other@),
{
    let mut i: usize = 0;
    while i < 32
        invariant
            i <= 32,
            forall|k: int| 0 <= k < i ==> one@[k] == other@[k],
        decreases 32 - i,
    {
        if one.0[i] != other.0[i] {
            return false;
        }
        i += 1;
    }
    assert(one@ =~= other@);
    true
}

/// A module of a library, with the path that it is imported by.
#[derive(Debug)]
pub struct LibraryModule {
    /// The path of the module.
    pub path: String,
    /// The module.
    pub module: ModuleAst,
}

impl View for LibraryModule {
    type V = NamedModuleSpec;

    open spec fn view(&self) -> NamedModuleSpec {
        NamedModuleSpec { path: self.path@, module: self.module@ }
    }
}

/// A provider that holds a fixed list of modules.
#[derive(Debug)]
pub struct ModuleLibrary {
    /// The modules, in the order in which they are searched.
    pub modules: Vec<LibraryModule>,
}

/// Whether the module defines a procedure with the identifier `id`, at or after position
/// `from` of its procedures.
pub open spec fn defines_from(named: NamedModuleSpec, id: Seq<u8>, from: int) -> bool
    decreases named.module.local_procs.len() - from,
{
    if from < 0 || from >= named.module.local_procs.len() {
        false
    } else if procedure_id(named.path, named.module.local_procs[from].name) == id {
        true
    } else {
        defines_from(named, id, from + 1)
    }
}

/// The first module at or after position `from` that defines a procedure with the
/// identifier `id`.
pub open spec fn find_module_from(modules: Seq<NamedModuleSpec>, id: Seq<u8>, from: int) -> Option<
    NamedModuleSpec,
>
    decreases modules.len() - from,
{
    if from < 0 || from >= modules.len() {
        None
    } else if defines_from(modules[from], id, 0) {
        Some(modules[from])
    } else {
        find_module_from(modules, id, from + 1)
    }
}

impl View for ModuleLibrary {
    type V = Seq<NamedModuleSpec>;

    open spec fn view(&self) -> Seq<NamedModuleSpec> {
        Seq::new(self.modules@.len(), |i: int| self.modules@[i]@)
    }
}

fn defines(entry: &LibraryModule, id: &ProcedureId) -> (out: bool)
    ensures
        out == defines_from(entry@, id@, 0),
{
    let mut i: usize = 0;
    while i < entry.module.local_procs.len()
        invariant
            i <= entry.module.local_procs@.len(),
            defines_from(entry@, id@, 0) == defines_from(entry@, id@, i as int),
        decreases entry.module.local_procs@.len() - i,
    {
        assert(entry@.module.local_procs[i as int] == entry.module.local_procs@[i as int]@);
        let candidate = ProcedureId::from_name(
            entry.module.local_procs[i].name.as_str(),
            entry.path.as_str(),
        );
        if same_id(&candidate, id) {
            return true;
        }
        i += 1;
    }
    false
}

impl ModuleLibrary {
    /// Returns a library without modules.
    pub fn new() -> (out: ModuleLibrary)
        ensures
            out@.len() == 0,
    {
        ModuleLibrary { modules: Vec::new() }
    }

    /// Adds `module` under the path `path`, behind the modules that the library holds.
    pub fn add(&mut self, path: String, module: ModuleAst)
        ensures
            final(self)@ == old(self)@.push(NamedModuleSpec { path: path@, module: module@ }),
    {
        self.modules.push(LibraryModule { path, module });
        assert(self@ =~= old(self)@.push(NamedModuleSpec { path: path@, module: module@ }));
    }
}

impl ModuleProvider for ModuleLibrary {
    /// The first module of the library that defines a procedure with the identifier.
    open spec fn module_for(&self, id: Seq<u8>) -> Option<NamedModuleSpec> {
        find_module_from(self@, id, 0)
    }

    fn get_module(&self, id: &ProcedureId) -> (out: Option<NamedModuleAst<'_>>) {
        let mut i: usize = 0;
        while i < self.modules.len()
            invariant
                i <= self.modules@.len(),
                find_module_from(self@, id@, 0) == find_module_from(self@, id@, i as int),
            decreases self.modules@.len() - i,
        {
            assert(self@[i as int] == self.modules@[i as int]@);
            if defines(&self.modules[i], id) {
                let entry = &self.modules[i];
                return Some(NamedModuleAst::new(entry.path.as_str(), &entry.module));
            }
            i += 1;
        }
        None
    }
}

} // verus!
