//! Instances: a module bound to its imports, with its exports converted once,
//! in declaration order, and the compilation contexts it keeps alive.
use crate::error::Error;
use crate::externals::{
    lemma_converted_matches, spec_converted, spec_descriptor_matches, spec_export_error, spec_extern_matches,
    ExportDescriptor, Extern,
};
use crate::resolve::{
    all_match, bind_imports, first_mismatch, is_mismatch_error, is_resolution_error,
};
use crate::module::Module;
use crate::runtime::Store;
use crate::types::ExportType;
use std::collections::HashSet;
use vstd::prelude::*;

verus! {

broadcast use vstd::std_specs::hash::group_hash_axioms;

/// An export of a compiled instance, under its name.
#[derive(Debug)]
pub struct NamedExport {
    pub name: String,
    pub export: ExportDescriptor,
}

/// What the engine produced from a module and its bound imports.
#[derive(Debug)]
pub struct CompiledInstance {
    /// The engine's handle for the instance.
    pub handle: u64,
    pub exports: Vec<NamedExport>,
}

/// An import's namespace and field.
#[derive(Debug)]
pub struct ImportName {
    pub module: String,
    pub field: String,
}

/// Why the engine could not produce an instance.
#[derive(Debug)]
pub enum InstantiateFailure {
    /// Linking failed. `unsupplied` is the first import for which no extern
    /// was supplied, if any; `last_supplied` is the last import for which
    /// one was, which the engine then refused when every import was supplied.
    Link { unsupplied: Option<ImportName>, last_supplied: Option<ImportName> },
    /// The engine lacked a resource it needed to set up the instance.
    Resource,
    /// The start function trapped.
    StartTrap,
}

/// The compilation context whose code an extern runs, if it runs any.
pub open spec fn spec_extern_context(e: Extern) -> Option<u64> {
    match e {
        Extern::Func(f) => match f.spec_code() {
            Some(c) => Some(c.context),
            None => None,
        },
        _ => None,
    }
}

/// The contexts an instance must keep alive: its store's, and that of every
/// compiled function among its imports.
pub open spec fn spec_needed_context(store_context: u64, imports: Seq<Extern>, c: u64) -> bool {
    c == store_context || exists|i: int|
        0 <= i < imports.len() && spec_extern_context(#[trigger] imports[i]) == Some(c)
}

pub open spec fn is_first_export(exports: Seq<NamedExport>, name: Seq<char>, j: int) -> bool {
    &&& 0 <= j < exports.len()
    &&& exports[j].name@ == name
    &&& forall|i: int| 0 <= i < j ==> (#[trigger] exports[i]).name@ != name
}

/// The compiled export of that name: the first one.
pub open spec fn spec_export_named(exports: Seq<NamedExport>, name: Seq<char>) -> Option<ExportDescriptor> {
    if exists|j: int| is_first_export(exports, name, j) {
        Some(exports[choose|j: int| is_first_export(exports, name, j)].export)
    } else {
        None
    }
}

/// The declared export `t` is found among the compiled exports, converts,
/// and has the declared type.
pub open spec fn export_ok(exports: Seq<NamedExport>, t: ExportType) -> bool {
    match spec_export_named(exports, t.spec_name()) {
        Some(d) => spec_export_error(d) is None && spec_descriptor_matches(d, t.spec_type()),
        None => false,
    }
}

/// `e` is the error for the declared export `t`: the conversion's error, or
/// `ExportLookup` when it is missing or not of the declared type.
pub open spec fn is_export_error(e: Error, exports: Seq<NamedExport>, t: ExportType) -> bool {
    match spec_export_named(exports, t.spec_name()) {
        Some(d) if spec_export_error(d) is Some => spec_export_error(d) == Some(e),
        _ => match e {
            Error::ExportLookup { name } => name@ == t.spec_name(),
            _ => false,
        },
    }
}

/// `k` is the first declared export that fails.
pub open spec fn first_failing_export(exports: Seq<NamedExport>, declared: Seq<ExportType>, k: int) -> bool {
    &&& 0 <= k < declared.len()
    &&& !export_ok(exports, declared[k])
    &&& forall|j: int| 0 <= j < k ==> export_ok(exports, #[trigger] declared[j])
}

/// A module bound to its imports and set up by the engine.
#[derive(Debug)]
pub struct Instance {
    handle: u64,
    contexts: HashSet<u64>,
    exports: Vec<Extern>,
}

/// `inst` is the instance made in `store` from `module`, bound to `imports`,
/// out of what the engine compiled.
pub open spec fn spec_instance_of(
    store: Store,
    module: Module,
    imports: Seq<Extern>,
    compiled: CompiledInstance,
    inst: Instance,
) -> bool {
    let ctx = store.spec_context().spec_id();
    &&& inst.spec_handle() == compiled.handle
    &&& inst.spec_exports().len() == module.spec_exports().len()
    &&& forall|k: int|
        0 <= k < module.spec_exports().len() ==> spec_converted(
            ctx,
            spec_export_named(compiled.exports@, module.spec_exports()[k].spec_name())->Some_0,
            #[trigger] inst.spec_exports()[k],
        )
    &&& forall|k: int|
        0 <= k < module.spec_exports().len() ==> spec_extern_matches(
            #[trigger] inst.spec_exports()[k],
            module.spec_exports()[k].spec_type(),
        )
    &&& forall|c: u64| inst.spec_contexts().contains(c) <==> spec_needed_context(ctx, imports, c)
}

impl Instance {
    pub closed spec fn spec_handle(&self) -> u64 {
        self.handle
    }

    pub closed spec fn spec_contexts(&self) -> Set<u64> {
        self.contexts@
    }

    pub closed spec fn spec_exports(&self) -> Seq<Extern> {
        self.exports@
    }

    /// Finishes instantiating `module` in `store` with `imports`, one per
    /// declared import in declared order, from what the engine did with them.
    /// The imports are checked first: their count, then each one's type.
    /// Then every declared export is converted, in declared order, and must
    /// have its declared type; the contexts the instance keeps alive are
    /// recorded. No instance is produced when an import does not fit, when
    /// the start function trapped, when linking failed, or when a declared
    /// export is missing, cannot be converted, or has another type.
    pub fn new(
        store: &Store,
        module: &Module,
        imports: &[Extern],
        compiled: Result<CompiledInstance, InstantiateFailure>,
    ) -> (r: Result<Instance, Error>)
        ensures
            imports@.len() != module.spec_imports().len() ==> r == Err::<Instance, Error>(
                Error::ImportArity {
                    expected: module.spec_imports().len() as usize,
                    supplied: imports@.len() as usize,
                },
            ),
            imports@.len() == module.spec_imports().len() && !all_match(
                module.spec_imports(),
                imports@,
            ) ==> r is Err && exists|k: int|
                first_mismatch(module.spec_imports(), imports@, k) && is_mismatch_error(
                    r->Err_0,
                    module.spec_imports()[k].spec_module(),
                    module.spec_imports()[k].spec_name(),
                ),
            r is Ok ==> imports@.len() == module.spec_imports().len() && all_match(
                module.spec_imports(),
                imports@,
            ),
            imports@.len() == module.spec_imports().len() && all_match(module.spec_imports(), imports@)
                ==> match compiled {
                Err(InstantiateFailure::StartTrap) => r is Err && r->Err_0 is InstantiationTrap,
                Err(InstantiateFailure::Resource) => r is Err && r->Err_0 is EngineSetup,
                Err(InstantiateFailure::Link { unsupplied: Some(n), .. }) => r is Err
                    && is_resolution_error(r->Err_0, n.module@, n.field@),
                Err(InstantiateFailure::Link { unsupplied: None, last_supplied: Some(n) }) => r is Err
                    && is_mismatch_error(r->Err_0, n.module@, n.field@),
                Err(InstantiateFailure::Link { unsupplied: None, last_supplied: None }) => r is Err
                    && r->Err_0 is EngineSetup,
                Ok(ci) => {
                    &&& (forall|k: int|
                        0 <= k < module.spec_exports().len() ==> export_ok(
                            ci.exports@,
                            #[trigger] module.spec_exports()[k],
                        )) ==> r is Ok && spec_instance_of(*store, *module, imports@, ci, r->Ok_0)
                    &&& !(forall|k: int|
                        0 <= k < module.spec_exports().len() ==> export_ok(
                            ci.exports@,
                            #[trigger] module.spec_exports()[k],
                        )) ==> r is Err && exists|k: int|
                        first_failing_export(ci.exports@, module.spec_exports(), k)
                            && is_export_error(r->Err_0, ci.exports@, module.spec_exports()[k])
                },
            },
    {
        if let Err(e) = bind_imports(module, imports) {
            return Err(e);
        }
        match compiled {
            Ok(ci) => Self::from_compiled(store, module, imports, ci),
            Err(InstantiateFailure::StartTrap) => Err(Error::InstantiationTrap),
            Err(InstantiateFailure::Resource) => Err(Error::EngineSetup),
            Err(InstantiateFailure::Link { unsupplied: Some(n), .. }) => Err(
                Error::ImportResolution { module: n.module, field: n.field },
            ),
            Err(InstantiateFailure::Link { unsupplied: None, last_supplied: Some(n) }) => Err(
                Error::ImportTypeMismatch { module: n.module, field: n.field },
            ),
            Err(InstantiateFailure::Link { unsupplied: None, last_supplied: None }) => Err(
                Error::EngineSetup,
            ),
        }
    }

    fn from_compiled(store: &Store, module: &Module, imports: &[Extern], ci: CompiledInstance) -> (r:
        Result<Instance, Error>)
        ensures
            (forall|k: int|
                0 <= k < module.spec_exports().len() ==> export_ok(
                    ci.exports@,
                    #[trigger] module.spec_exports()[k],
                )) ==> r is Ok && spec_instance_of(*store, *module, imports@, ci, r->Ok_0),
            !(forall|k: int|
                0 <= k < module.spec_exports().len() ==> export_ok(
                    ci.exports@,
                    #[trigger] module.spec_exports()[k],
                )) ==> r is Err && exists|k: int|
                first_failing_export(ci.exports@, module.spec_exports(), k) && is_export_error(
                    r->Err_0,
                    ci.exports@,
                    module.spec_exports()[k],
                ),
    {
        let ctx = store.context().id();
        let declared = module.exports();
        let mut exports: Vec<Extern> = Vec::new();
        let mut k: usize = 0;
        while k < declared.len()
            invariant
                declared@ == module.spec_exports(),
                ctx == store.spec_context().spec_id(),
                k <= declared@.len(),
                exports@.len() == k,
                forall|j: int| 0 <= j < k ==> export_ok(ci.exports@, #[trigger] declared@[j]),
                forall|j: int|
                    0 <= j < k ==> spec_converted(
                        ctx,
                        spec_export_named(ci.exports@, declared@[j].spec_name())->Some_0,
                        #[trigger] exports@[j],
                    ),
                forall|j: int|
                    0 <= j < k ==> spec_extern_matches(
                        #[trigger] exports@[j],
                        declared@[j].spec_type(),
                    ),
            decreases declared@.len() - k,
        {
            let name = declared[k].name().as_string();
            let found = find_export(&ci.exports, name);
            match found {
                None => {
                    assert(first_failing_export(ci.exports@, declared@, k as int));
                    return Err(Error::ExportLookup { name: name.clone() });
                },
                Some(j) => {
                    match Extern::from_export(ctx, &ci.exports[j].export) {
                        Ok(e) => {
                            proof {
                                lemma_converted_matches(
                                    ctx,
                                    ci.exports@[j as int].export,
                                    e,
                                    declared@[k as int].spec_type(),
                                );
                            }
                            if !e.matches(declared[k].ty()) {
                                assert(first_failing_export(ci.exports@, declared@, k as int));
                                return Err(Error::ExportLookup { name: name.clone() });
                            }
                            exports.push(e);
                        },
                        Err(err) => {
                            assert(first_failing_export(ci.exports@, declared@, k as int));
                            return Err(err);
                        },
                    }
                },
            }
            k = k + 1;
        }
        let contexts = contexts_of(ctx, imports);
        Ok(Instance { handle: ci.handle, contexts, exports })
    }

    pub fn handle(&self) -> (r: u64)
        ensures
            r == self.spec_handle(),
    {
        self.handle
    }

    /// The identifiers of the compilation contexts kept alive.
    pub fn contexts(&self) -> (r: &HashSet<u64>)
        ensures
            r@ == self.spec_contexts(),
    {
        &self.contexts
    }

    /// The exports, one per declared export of the module, in declared order.
    pub fn exports(&self) -> (r: &[Extern])
        ensures
            r@ == self.spec_exports(),
    {
        self.exports.as_slice()
    }

    /// Another handle to the `k`-th export.
    pub fn export(&self, k: usize) -> (r: Extern)
        requires
            k < self.spec_exports().len(),
        ensures
            r == self.spec_exports()[k as int],
    {
        self.exports[k].share()
    }
}

/// Index of the first compiled export named `name`.
fn find_export(exports: &Vec<NamedExport>, name: &String) -> (r: Option<usize>)
    ensures
        match r {
            Some(j) => is_first_export(exports@, name@, j as int) && spec_export_named(
                exports@,
                name@,
            ) == Some(exports@[j as int].export),
            None => spec_export_named(exports@, name@) is None,
        },
{
    let mut j: usize = 0;
    while j < exports.len()
        invariant
            j <= exports@.len(),
            forall|i: int| 0 <= i < j ==> (#[trigger] exports@[i]).name@ != name@,
        decreases exports@.len() - j,
    {
        if exports[j].name == *name {
            assert(is_first_export(exports@, name@, j as int));
            let ghost c = choose|c: int| is_first_export(exports@, name@, c);
            assert(c == j);
            return Some(j);
        }
        j = j + 1;
    }
    None
}

/// The store's context and those of the compiled functions among `imports`.
fn contexts_of(store_context: u64, imports: &[Extern]) -> (r: HashSet<u64>)
    ensures
        forall|c: u64| r@.contains(c) <==> spec_needed_context(store_context, imports@, c),
{
    let mut out: HashSet<u64> = HashSet::new();
    out.insert(store_context);
    let mut i: usize = 0;
    while i < imports.len()
        invariant
            i <= imports@.len(),
            forall|c: u64|
                out@.contains(c) <==> (c == store_context || exists|j: int|
                    0 <= j < i && spec_extern_context(#[trigger] imports@[j]) == Some(c)),
        decreases imports@.len() - i,
    {
        let next = imports[i].context();
        let ghost prev = out@;
        if let Some(c) = next {
            out.insert(c);
        }
        proof {
            assert forall|x: u64|
                out@.contains(x) <==> (x == store_context || exists|j: int|
                    0 <= j < i + 1 && spec_extern_context(#[trigger] imports@[j]) == Some(x)) by {
                assert(out@.contains(x) <==> (prev.contains(x) || next == Some(x)));
                if exists|j: int|
                    0 <= j < i + 1 && spec_extern_context(#[trigger] imports@[j]) == Some(x) {
                    let j = choose|j: int|
                        0 <= j < i + 1 && spec_extern_context(#[trigger] imports@[j]) == Some(x);
                    if j < i {
                        assert(exists|j2: int|
                            0 <= j2 < i && spec_extern_context(#[trigger] imports@[j2]) == Some(x));
                    }
                }
                if next == Some(x) {
                    assert(spec_extern_context(imports@[i as int]) == Some(x));
                }
            }
        }
        i = i + 1;
    }
    out
}

/// An instance keeps alive its store's compilation context and the context
/// of every compiled function bound as one of its imports, so code reachable
/// through an import never outlives the context that owns it.
pub proof fn lemma_imported_contexts_kept(
    store: Store,
    module: Module,
    imports: Seq<Extern>,
    compiled: CompiledInstance,
    inst: Instance,
    i: int,
)
    requires
        spec_instance_of(store, module, imports, compiled, inst),
        0 <= i < imports.len(),
    ensures
        inst.spec_contexts().contains(store.spec_context().spec_id()),
        spec_extern_context(imports[i]) is Some ==> inst.spec_contexts().contains(
            spec_extern_context(imports[i])->Some_0,
        ),
{
    let ctx = store.spec_context().spec_id();
    assert(spec_needed_context(ctx, imports, ctx));
    if spec_extern_context(imports[i]) is Some {
        assert(spec_needed_context(ctx, imports, spec_extern_context(imports[i])->Some_0));
    }
}

} // verus!
