//! Validated modules and their import and export metadata.
use crate::error::Error;
use crate::types::{ExportType, ExternType, FuncType, GlobalType, ImportType, MemoryType, Name, TableType};
use vstd::prelude::*;

verus! {

/// Why the compiler rejected a binary.
#[derive(Debug, Clone, Copy, PartialEq, Eq, Structural)]
pub enum CompileFailure {
    /// The bytes are not a wasm binary.
    Malformed,
    /// The binary is not valid wasm.
    Invalid,
}

/// The metadata the compiler extracts from a valid binary.
#[derive(Debug)]
pub struct ModuleInfo {
    pub imports: Vec<ImportType>,
    pub exports: Vec<ExportType>,
}

/// A validated binary with its ordered imports and exports. Nothing in it
/// changes after construction, so every instance made from it reads the same
/// metadata, computed once.
#[derive(Debug)]
pub struct Module {
    binary: Vec<u8>,
    imports: Vec<ImportType>,
    exports: Vec<ExportType>,
}

impl Module {
    pub closed spec fn spec_binary(&self) -> Seq<u8> {
        self.binary@
    }

    pub closed spec fn spec_imports(&self) -> Seq<ImportType> {
        self.imports@
    }

    pub closed spec fn spec_exports(&self) -> Seq<ExportType> {
        self.exports@
    }

    /// A module from its bytes and what the compiler made of them.
    pub fn new(binary: Vec<u8>, compiled: Result<ModuleInfo, CompileFailure>) -> (r: Result<
        Module,
        Error,
    >)
        ensures
            match compiled {
                Ok(info) => r is Ok && r->Ok_0.spec_binary() == binary@
                    && r->Ok_0.spec_imports() == info.imports@ && r->Ok_0.spec_exports()
                    == info.exports@,
                Err(CompileFailure::Malformed) => r is Err && r->Err_0 is Binary,
                Err(CompileFailure::Invalid) => r is Err && r->Err_0 is Validation,
            },
    {
        match compiled {
            Ok(info) => Ok(Module { binary, imports: info.imports, exports: info.exports }),
            Err(CompileFailure::Malformed) => Err(Error::Binary),
            Err(CompileFailure::Invalid) => Err(Error::Validation),
        }
    }

    pub fn binary(&self) -> (r: &[u8])
        ensures
            r@ == self.spec_binary(),
    {
        self.binary.as_slice()
    }

    pub fn imports(&self) -> (r: &[ImportType])
        ensures
            r@ == self.spec_imports(),
    {
        self.imports.as_slice()
    }

    pub fn exports(&self) -> (r: &[ExportType])
        ensures
            r@ == self.spec_exports(),
    {
        self.exports.as_slice()
    }
}


/// Whether `bytes` form a valid wasm module under the default feature set.
pub uninterp spec fn wasm_valid(bytes: Seq<u8>) -> bool;

/// Relies on `wasmparser::validate` with no configuration: it decides whether
/// the bytes are a valid module, from the bytes alone.
#[verifier::external_body]
fn validate(bytes: &[u8]) -> (r: bool)
    ensures
        r == wasm_valid(bytes@),
{
    wasmparser::validate(bytes, None)
}

impl Module {
    /// Loads a binary from its bytes and the sections read from them: the
    /// bytes must validate, and the sections must be consistent. The
    /// metadata is computed here, once.
    pub fn load(binary: Vec<u8>, sections: Result<ModuleSections, CompileFailure>) -> (r: Result<
        Module,
        Error,
    >)
        ensures
            match sections {
                Err(CompileFailure::Malformed) => r is Err && r->Err_0 is Binary,
                Err(CompileFailure::Invalid) => r is Err && r->Err_0 is Validation,
                Ok(s) => {
                    &&& !(wasm_valid(binary@) && s.indices_valid()) ==> r is Err
                        && r->Err_0 is Validation
                    &&& wasm_valid(binary@) && s.indices_valid() ==> r is Ok
                        && r->Ok_0.spec_binary() == binary@ && s.describes(
                        r->Ok_0.spec_imports(),
                        r->Ok_0.spec_exports(),
                    )
                },
            },
    {
        match sections {
            Err(failure) => Module::new(binary, Err(failure)),
            Ok(s) => {
                if !validate(binary.as_slice()) {
                    return Err(Error::Validation);
                }
                Module::new(binary, s.module_info())
            },
        }
    }
}

/// What a raw import brings in.
#[derive(Debug, Clone, Copy, PartialEq, Eq, Structural)]
pub enum RawImportKind {
    /// A function, by the index of its type in the type section.
    Func(u32),
    Table(TableType),
    Memory(MemoryType),
    Global(GlobalType),
}

/// An entry of a binary's import section.
#[derive(Debug)]
pub struct RawImport {
    pub module: String,
    pub field: String,
    pub kind: RawImportKind,
}

/// The index space an export refers to.
#[derive(Debug, Clone, Copy, PartialEq, Eq, Structural)]
pub enum ExportKind {
    Func,
    Table,
    Memory,
    Global,
}

/// An entry of a binary's export section.
#[derive(Debug)]
pub struct RawExport {
    pub name: String,
    pub kind: ExportKind,
    pub index: u32,
}

/// The sections of a binary that declare types, imports, entities and
/// exports, as read from the bytes.
#[derive(Debug)]
pub struct ModuleSections {
    pub types: Vec<FuncType>,
    pub imports: Vec<RawImport>,
    /// The type index of each function defined by the module.
    pub functions: Vec<u32>,
    pub tables: Vec<TableType>,
    pub memories: Vec<MemoryType>,
    pub globals: Vec<GlobalType>,
    pub exports: Vec<RawExport>,
}

/// Type indices of the imported functions, in import order.
pub open spec fn imported_funcs(imports: Seq<RawImport>) -> Seq<u32>
    decreases imports.len(),
{
    if imports.len() == 0 {
        Seq::empty()
    } else {
        let prev = imported_funcs(imports.drop_last());
        match imports.last().kind {
            RawImportKind::Func(t) => prev.push(t),
            _ => prev,
        }
    }
}

pub open spec fn imported_tables(imports: Seq<RawImport>) -> Seq<TableType>
    decreases imports.len(),
{
    if imports.len() == 0 {
        Seq::empty()
    } else {
        let prev = imported_tables(imports.drop_last());
        match imports.last().kind {
            RawImportKind::Table(t) => prev.push(t),
            _ => prev,
        }
    }
}

pub open spec fn imported_memories(imports: Seq<RawImport>) -> Seq<MemoryType>
    decreases imports.len(),
{
    if imports.len() == 0 {
        Seq::empty()
    } else {
        let prev = imported_memories(imports.drop_last());
        match imports.last().kind {
            RawImportKind::Memory(t) => prev.push(t),
            _ => prev,
        }
    }
}

pub open spec fn imported_globals(imports: Seq<RawImport>) -> Seq<GlobalType>
    decreases imports.len(),
{
    if imports.len() == 0 {
        Seq::empty()
    } else {
        let prev = imported_globals(imports.drop_last());
        match imports.last().kind {
            RawImportKind::Global(t) => prev.push(t),
            _ => prev,
        }
    }
}

impl ModuleSections {
    /// The function index space: imported functions first, then defined
    /// ones, each by its type index.
    pub open spec fn func_space(&self) -> Seq<u32> {
        imported_funcs(self.imports@) + self.functions@
    }

    pub open spec fn table_space(&self) -> Seq<TableType> {
        imported_tables(self.imports@) + self.tables@
    }

    pub open spec fn memory_space(&self) -> Seq<MemoryType> {
        imported_memories(self.imports@) + self.memories@
    }

    pub open spec fn global_space(&self) -> Seq<GlobalType> {
        imported_globals(self.imports@) + self.globals@
    }

    pub open spec fn export_in_range(&self, e: RawExport) -> bool {
        match e.kind {
            ExportKind::Func => e.index < self.func_space().len(),
            ExportKind::Table => e.index < self.table_space().len(),
            ExportKind::Memory => e.index < self.memory_space().len(),
            ExportKind::Global => e.index < self.global_space().len(),
        }
    }

    /// Every index refers to an existing type or entity.
    pub open spec fn indices_valid(&self) -> bool {
        &&& forall|k: int|
            0 <= k < self.func_space().len() ==> #[trigger] self.func_space()[k] < self.types@.len()
        &&& forall|i: int| 0 <= i < self.exports@.len() ==> self.export_in_range(#[trigger] self.exports@[i])
    }

    /// The type an export of kind `kind` and index `index` has.
    pub open spec fn type_is(&self, t: ExternType, kind: ExportKind, index: u32) -> bool {
        match kind {
            ExportKind::Func => t is ExternFunc && {
                let f = self.types@[self.func_space()[index as int] as int];
                &&& t->ExternFunc_0.spec_params() == f.spec_params()
                &&& t->ExternFunc_0.spec_results() == f.spec_results()
            },
            ExportKind::Table => t == ExternType::ExternTable(self.table_space()[index as int]),
            ExportKind::Memory => t == ExternType::ExternMemory(self.memory_space()[index as int]),
            ExportKind::Global => t == ExternType::ExternGlobal(self.global_space()[index as int]),
        }
    }

    /// `imports` and `exports` are the types the sections declare, in order.
    pub open spec fn describes(&self, imports: Seq<ImportType>, exports: Seq<ExportType>) -> bool {
        &&& imports.len() == self.imports@.len()
        &&& forall|i: int|
            0 <= i < self.imports@.len() ==> {
                &&& (#[trigger] imports[i]).spec_module() == self.imports@[i].module@
                &&& imports[i].spec_name() == self.imports@[i].field@
                &&& self.import_type_is(imports[i].spec_type(), self.imports@[i].kind)
            }
        &&& exports.len() == self.exports@.len()
        &&& forall|i: int|
            0 <= i < self.exports@.len() ==> {
                &&& (#[trigger] exports[i]).spec_name() == self.exports@[i].name@
                &&& self.type_is(exports[i].spec_type(), self.exports@[i].kind, self.exports@[i].index)
            }
    }

    /// The import and export types the sections declare, in their order.
    /// Fails when an index refers to no type or entity.
    pub fn module_info(&self) -> (r: Result<ModuleInfo, CompileFailure>)
        ensures
            self.indices_valid() ==> r is Ok && self.describes(
                r->Ok_0.imports@,
                r->Ok_0.exports@,
            ),
            !self.indices_valid() ==> r == Err::<ModuleInfo, CompileFailure>(CompileFailure::Invalid),
    {
        let n_types = self.types.len();
        let mut funcs: Vec<u32> = Vec::new();
        let mut tables: Vec<TableType> = Vec::new();
        let mut memories: Vec<MemoryType> = Vec::new();
        let mut globals: Vec<GlobalType> = Vec::new();
        let mut imports: Vec<ImportType> = Vec::new();
        let mut i: usize = 0;
        while i < self.imports.len()
            invariant
                n_types == self.types@.len(),
                i <= self.imports@.len(),
                funcs@ == imported_funcs(self.imports@.take(i as int)),
                tables@ == imported_tables(self.imports@.take(i as int)),
                memories@ == imported_memories(self.imports@.take(i as int)),
                globals@ == imported_globals(self.imports@.take(i as int)),
                forall|k: int| 0 <= k < funcs@.len() ==> #[trigger] funcs@[k] < n_types,
                imports@.len() == i,
                forall|j: int|
                    0 <= j < i ==> {
                        &&& (#[trigger] imports@[j]).spec_module() == self.imports@[j].module@
                        &&& imports@[j].spec_name() == self.imports@[j].field@
                        &&& self.import_type_is(imports@[j].spec_type(), self.imports@[j].kind)
                    },
            decreases self.imports@.len() - i,
        {
            let imp = &self.imports[i];
            proof {
                let t = self.imports@.take(i + 1);
                assert(t.drop_last() =~= self.imports@.take(i as int));
                assert(t.last() == self.imports@[i as int]);
            }
            let ty = match imp.kind {
                RawImportKind::Func(ti) => {
                    if ti as usize >= n_types {
                        proof { self.lemma_func_import_out_of_range(i as int, ti); }
                        return Err(CompileFailure::Invalid);
                    }
                    funcs.push(ti);
                    ExternType::ExternFunc(self.types[ti as usize].duplicate())
                },
                RawImportKind::Table(tt) => {
                    tables.push(tt);
                    ExternType::ExternTable(tt)
                },
                RawImportKind::Memory(mt) => {
                    memories.push(mt);
                    ExternType::ExternMemory(mt)
                },
                RawImportKind::Global(gt) => {
                    globals.push(gt);
                    ExternType::ExternGlobal(gt)
                },
            };
            imports.push(
                ImportType::new(
                    Name::new(imp.module.clone()),
                    Name::new(imp.field.clone()),
                    ty,
                ),
            );
            i = i + 1;
        }
        assert(self.imports@.take(i as int) =~= self.imports@);
        let mut j: usize = 0;
        while j < self.functions.len()
            invariant
                n_types == self.types@.len(),
                j <= self.functions@.len(),
                funcs@ == imported_funcs(self.imports@) + self.functions@.take(j as int),
                forall|k: int| 0 <= k < funcs@.len() ==> #[trigger] funcs@[k] < n_types,
            decreases self.functions@.len() - j,
        {
            let ti = self.functions[j];
            if ti as usize >= n_types {
                proof {
                    let k = imported_funcs(self.imports@).len() + j;
                    assert(self.func_space()[k] == ti);
                }
                return Err(CompileFailure::Invalid);
            }
            funcs.push(ti);
            j = j + 1;
            assert(funcs@ =~= imported_funcs(self.imports@) + self.functions@.take(j as int));
        }
        assert(self.functions@.take(j as int) =~= self.functions@);
        append_all(&mut tables, &self.tables);
        append_all(&mut memories, &self.memories);
        append_all(&mut globals, &self.globals);
        let mut exports: Vec<ExportType> = Vec::new();
        let mut e: usize = 0;
        while e < self.exports.len()
            invariant
                n_types == self.types@.len(),
                funcs@ == self.func_space(),
                tables@ == self.table_space(),
                memories@ == self.memory_space(),
                globals@ == self.global_space(),
                forall|k: int| 0 <= k < funcs@.len() ==> #[trigger] funcs@[k] < n_types,
                e <= self.exports@.len(),
                exports@.len() == e,
                forall|q: int| 0 <= q < e ==> self.export_in_range(#[trigger] self.exports@[q]),
                forall|q: int|
                    0 <= q < e ==> {
                        &&& (#[trigger] exports@[q]).spec_name() == self.exports@[q].name@
                        &&& self.type_is(
                            exports@[q].spec_type(),
                            self.exports@[q].kind,
                            self.exports@[q].index,
                        )
                    },
            decreases self.exports@.len() - e,
        {
            let ex = &self.exports[e];
            let idx = ex.index as usize;
            let ty = match ex.kind {
                ExportKind::Func => {
                    if idx >= funcs.len() {
                        return Err(CompileFailure::Invalid);
                    }
                    ExternType::ExternFunc(self.types[funcs[idx] as usize].duplicate())
                },
                ExportKind::Table => {
                    if idx >= tables.len() {
                        return Err(CompileFailure::Invalid);
                    }
                    ExternType::ExternTable(tables[idx])
                },
                ExportKind::Memory => {
                    if idx >= memories.len() {
                        return Err(CompileFailure::Invalid);
                    }
                    ExternType::ExternMemory(memories[idx])
                },
                ExportKind::Global => {
                    if idx >= globals.len() {
                        return Err(CompileFailure::Invalid);
                    }
                    ExternType::ExternGlobal(globals[idx])
                },
            };
            exports.push(ExportType::new(Name::new(ex.name.clone()), ty));
            e = e + 1;
        }
        Ok(ModuleInfo { imports, exports })
    }

    proof fn lemma_func_import_out_of_range(&self, i: int, ti: u32)
        requires
            0 <= i < self.imports@.len(),
            self.imports@[i].kind == RawImportKind::Func(ti),
            ti >= self.types@.len(),
        ensures
            !self.indices_valid(),
    {
        lemma_imported_funcs_contains(self.imports@, i, ti);
        let k = choose|k: int| 0 <= k < imported_funcs(self.imports@).len() && imported_funcs(self.imports@)[k] == ti;
        assert(self.func_space()[k] == ti);
    }

    /// The declared type of an import.
    pub open spec fn import_type_is(&self, t: ExternType, kind: RawImportKind) -> bool {
        match kind {
            RawImportKind::Func(ti) => t is ExternFunc && {
                let f = self.types@[ti as int];
                &&& t->ExternFunc_0.spec_params() == f.spec_params()
                &&& t->ExternFunc_0.spec_results() == f.spec_results()
            },
            RawImportKind::Table(tt) => t == ExternType::ExternTable(tt),
            RawImportKind::Memory(mt) => t == ExternType::ExternMemory(mt),
            RawImportKind::Global(gt) => t == ExternType::ExternGlobal(gt),
        }
    }
}

proof fn lemma_imported_funcs_contains(imports: Seq<RawImport>, i: int, ti: u32)
    requires
        0 <= i < imports.len(),
        imports[i].kind == RawImportKind::Func(ti),
    ensures
        exists|k: int| 0 <= k < imported_funcs(imports).len() && imported_funcs(imports)[k] == ti,
    decreases imports.len(),
{
    let prev = imported_funcs(imports.drop_last());
    if i == imports.len() - 1 {
        assert(imported_funcs(imports)[prev.len() as int] == ti);
    } else {
        lemma_imported_funcs_contains(imports.drop_last(), i, ti);
        let k = choose|k: int| 0 <= k < prev.len() && prev[k] == ti;
        assert(imported_funcs(imports)[k] == ti);
    }
}

fn append_all<T: Copy>(v: &mut Vec<T>, extra: &Vec<T>)
    ensures
        final(v)@ == old(v)@ + extra@,
{
    let mut i: usize = 0;
    let ghost start = v@;
    while i < extra.len()
        invariant
            i <= extra@.len(),
            v@ == start + extra@.take(i as int),
        decreases extra@.len() - i,
    {
        v.push(extra[i]);
        i = i + 1;
        assert(v@ =~= start + extra@.take(i as int));
    }
    assert(extra@.take(i as int) =~= extra@);
}

} // verus!
