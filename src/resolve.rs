//! Import resolution: binding a module's declared imports, in their declared
//! order, to externs supplied by position or found in a registry of named
//! instances.
use crate::error::Error;
use crate::externals::{spec_extern_matches, Extern};
use crate::instance::Instance;
use crate::module::Module;
use crate::types::ImportType;
use vstd::prelude::*;

verus! {

/// An import bound to the extern that satisfies it.
#[derive(Debug)]
pub struct Binding {
    pub module: String,
    pub field: String,
    pub ext: Extern,
}

pub open spec fn all_match(imports: Seq<ImportType>, externs: Seq<Extern>) -> bool {
    forall|i: int|
        0 <= i < imports.len() ==> spec_extern_matches(#[trigger] externs[i], imports[i].spec_type())
}

/// `k` is the first import whose extern has the wrong type.
pub open spec fn first_mismatch(imports: Seq<ImportType>, externs: Seq<Extern>, k: int) -> bool {
    &&& 0 <= k < imports.len()
    &&& !spec_extern_matches(externs[k], imports[k].spec_type())
    &&& forall|j: int|
        0 <= j < k ==> spec_extern_matches(#[trigger] externs[j], imports[j].spec_type())
}

/// `e` reports a type mismatch for the import `module`/`field`.
pub open spec fn is_mismatch_error(e: Error, module: Seq<char>, field: Seq<char>) -> bool {
    match e {
        Error::ImportTypeMismatch { module: m, field: f } => m@ == module && f@ == field,
        _ => false,
    }
}

/// `e` reports that nothing was found for the import `module`/`field`.
pub open spec fn is_resolution_error(e: Error, module: Seq<char>, field: Seq<char>) -> bool {
    match e {
        Error::ImportResolution { module: m, field: f } => m@ == module && f@ == field,
        _ => false,
    }
}

/// Binds the supplied externs to the module's imports by position. The count
/// must be the number of imports, and each extern must have the declared type.
pub fn bind_imports(module: &Module, externs: &[Extern]) -> (r: Result<Vec<Binding>, Error>)
    ensures
        externs@.len() != module.spec_imports().len() ==> r == Err::<Vec<Binding>, Error>(
            Error::ImportArity {
                expected: module.spec_imports().len() as usize,
                supplied: externs@.len() as usize,
            },
        ),
        externs@.len() == module.spec_imports().len() && all_match(module.spec_imports(), externs@)
            ==> r is Ok && r->Ok_0@.len() == externs@.len() && forall|i: int|
            0 <= i < externs@.len() ==> {
                &&& (#[trigger] r->Ok_0@[i]).module@ == module.spec_imports()[i].spec_module()
                &&& r->Ok_0@[i].field@ == module.spec_imports()[i].spec_name()
                &&& r->Ok_0@[i].ext == externs@[i]
            },
        externs@.len() == module.spec_imports().len() && !all_match(
            module.spec_imports(),
            externs@,
        ) ==> r is Err && exists|k: int|
            first_mismatch(module.spec_imports(), externs@, k) && is_mismatch_error(
                r->Err_0,
                module.spec_imports()[k].spec_module(),
                module.spec_imports()[k].spec_name(),
            ),
{
    let imports = module.imports();
    if externs.len() != imports.len() {
        return Err(Error::ImportArity { expected: imports.len(), supplied: externs.len() });
    }
    let mut bindings: Vec<Binding> = Vec::new();
    let mut i: usize = 0;
    while i < imports.len()
        invariant
            imports@ == module.spec_imports(),
            externs@.len() == imports@.len(),
            i <= imports@.len(),
            bindings@.len() == i,
            forall|j: int|
                0 <= j < i ==> spec_extern_matches(#[trigger] externs@[j], imports@[j].spec_type()),
            forall|j: int|
                0 <= j < i ==> {
                    &&& (#[trigger] bindings@[j]).module@ == imports@[j].spec_module()
                    &&& bindings@[j].field@ == imports@[j].spec_name()
                    &&& bindings@[j].ext == externs@[j]
                },
        decreases imports@.len() - i,
    {
        let import = &imports[i];
        if !externs[i].matches(import.ty()) {
            assert(first_mismatch(imports@, externs@, i as int));
            return Err(
                Error::ImportTypeMismatch {
                    module: import.module().to_string(),
                    field: import.name().to_string(),
                },
            );
        }
        bindings.push(
            Binding {
                module: import.module().to_string(),
                field: import.name().to_string(),
                ext: externs[i].share(),
            },
        );
        i = i + 1;
    }
    Ok(bindings)
}

/// `i` is the first binding for `module`/`field`.
pub open spec fn is_first_binding(bindings: Seq<Binding>, module: Seq<char>, field: Seq<char>, i: int) -> bool {
    &&& 0 <= i < bindings.len()
    &&& bindings[i].module@ == module && bindings[i].field@ == field
    &&& forall|j: int|
        0 <= j < i ==> !((#[trigger] bindings[j]).module@ == module && bindings[j].field@ == field)
}

/// The extern bound to `module`/`field`, if any: the first such binding.
pub fn resolve(bindings: &[Binding], module: &String, field: &String) -> (r: Option<Extern>)
    ensures
        (exists|i: int| is_first_binding(bindings@, module@, field@, i)) ==> r is Some && exists|i: int|
            is_first_binding(bindings@, module@, field@, i) && r->Some_0 == bindings@[i].ext,
        !(exists|i: int| is_first_binding(bindings@, module@, field@, i)) ==> r is None,
{
    let mut i: usize = 0;
    while i < bindings.len()
        invariant
            i <= bindings@.len(),
            forall|j: int|
                0 <= j < i ==> !((#[trigger] bindings@[j]).module@ == module@ && bindings@[j].field@
                    == field@),
        decreases bindings@.len() - i,
    {
        if bindings[i].module == *module && bindings[i].field == *field {
            assert(is_first_binding(bindings@, module@, field@, i as int));
            return Some(bindings[i].ext.share());
        }
        i = i + 1;
    }
    None
}

/// How many of `bindings` are for `module`/`field`.
pub open spec fn count_bindings(bindings: Seq<Binding>, module: Seq<char>, field: Seq<char>) -> nat
    decreases bindings.len(),
{
    if bindings.len() == 0 {
        0
    } else {
        let b = bindings.last();
        count_bindings(bindings.drop_last(), module, field) + if b.module@ == module && b.field@
            == field {
            1nat
        } else {
            0nat
        }
    }
}

/// `i` is the binding for `module`/`field` that has `n` such bindings before it.
pub open spec fn is_nth_binding(
    bindings: Seq<Binding>,
    module: Seq<char>,
    field: Seq<char>,
    n: nat,
    i: int,
) -> bool {
    &&& 0 <= i < bindings.len()
    &&& bindings[i].module@ == module && bindings[i].field@ == field
    &&& count_bindings(bindings.take(i), module, field) == n
}

/// The extern bound to the `n`-th import (counting from zero) named
/// `module`/`field`, in declared order: when a module imports the same pair
/// more than once, each import gets the extern bound at its own position.
pub fn resolve_nth(bindings: &[Binding], module: &String, field: &String, n: usize) -> (r: Option<
    Extern,
>)
    ensures
        (exists|i: int| is_nth_binding(bindings@, module@, field@, n as nat, i)) ==> r is Some
            && exists|i: int|
            is_nth_binding(bindings@, module@, field@, n as nat, i) && r->Some_0 == bindings@[i].ext,
        !(exists|i: int| is_nth_binding(bindings@, module@, field@, n as nat, i)) ==> r is None,
{
    let mut seen: usize = 0;
    let mut i: usize = 0;
    while i < bindings.len()
        invariant
            i <= bindings@.len(),
            seen == count_bindings(bindings@.take(i as int), module@, field@),
            seen <= n,
            forall|j: int| 0 <= j < i ==> !is_nth_binding(bindings@, module@, field@, n as nat, j),
        decreases bindings@.len() - i,
    {
        proof {
            assert(bindings@.take(i + 1).drop_last() =~= bindings@.take(i as int));
        }
        if bindings[i].module == *module && bindings[i].field == *field {
            if seen == n {
                assert(is_nth_binding(bindings@, module@, field@, n as nat, i as int));
                return Some(bindings[i].ext.share());
            }
            seen = seen + 1;
        }
        i = i + 1;
    }
    proof {
        assert forall|j: int| !is_nth_binding(bindings@, module@, field@, n as nat, j) by {
            if 0 <= j < bindings@.len() {
                assert(j < i);
            }
        }
    }
    None
}

/// The exports of one instance, registered under a namespace.
#[derive(Debug)]
pub struct RegistryEntry {
    namespace: String,
    names: Vec<String>,
    externs: Vec<Extern>,
}

impl RegistryEntry {
    pub closed spec fn spec_namespace(&self) -> Seq<char> {
        self.namespace@
    }

    pub closed spec fn spec_names(&self) -> Seq<Seq<char>> {
        self.names@.map_values(|s: String| s@)
    }

    pub closed spec fn spec_externs(&self) -> Seq<Extern> {
        self.externs@
    }

    pub closed spec fn wf(&self) -> bool {
        self.names@.len() == self.externs@.len()
    }
}

pub open spec fn is_first_namespace(entries: Seq<RegistryEntry>, ns: Seq<char>, i: int) -> bool {
    &&& 0 <= i < entries.len()
    &&& entries[i].spec_namespace() == ns
    &&& forall|j: int| 0 <= j < i ==> (#[trigger] entries[j]).spec_namespace() != ns
}

pub open spec fn is_first_name(names: Seq<Seq<char>>, field: Seq<char>, k: int) -> bool {
    &&& 0 <= k < names.len()
    &&& names[k] == field
    &&& forall|j: int| 0 <= j < k ==> (#[trigger] names[j]) != field
}

/// What the registry binds to `ns`/`field`: the first entry of that
/// namespace, and in it the first export of that name.
pub open spec fn spec_lookup(entries: Seq<RegistryEntry>, ns: Seq<char>, field: Seq<char>) -> Option<Extern> {
    if exists|i: int| is_first_namespace(entries, ns, i) {
        let e = entries[choose|i: int| is_first_namespace(entries, ns, i)];
        if exists|k: int| is_first_name(e.spec_names(), field, k) {
            Some(e.spec_externs()[choose|k: int| is_first_name(e.spec_names(), field, k)])
        } else {
            None
        }
    } else {
        None
    }
}

pub open spec fn resolvable(entries: Seq<RegistryEntry>, import: ImportType) -> bool {
    spec_lookup(entries, import.spec_module(), import.spec_name()) is Some
}

/// `k` is the first import the registry cannot resolve.
pub open spec fn first_unresolvable(entries: Seq<RegistryEntry>, imports: Seq<ImportType>, k: int) -> bool {
    &&& 0 <= k < imports.len()
    &&& !resolvable(entries, imports[k])
    &&& forall|j: int| 0 <= j < k ==> resolvable(entries, #[trigger] imports[j])
}

/// Named instances whose exports can satisfy the imports of later modules.
#[derive(Debug)]
pub struct Registry {
    entries: Vec<RegistryEntry>,
}

impl Registry {
    pub closed spec fn spec_entries(&self) -> Seq<RegistryEntry> {
        self.entries@
    }

    pub closed spec fn wf(&self) -> bool {
        forall|i: int| 0 <= i < self.entries@.len() ==> (#[trigger] self.entries@[i]).wf()
    }

    pub fn new() -> (r: Registry)
        ensures
            r.wf(),
            r.spec_entries().len() == 0,
    {
        Registry { entries: Vec::new() }
    }

    /// Registers the exports of `instance`, made from `module`, under
    /// `namespace`. An earlier entry of the same namespace keeps precedence.
    pub fn register(&mut self, namespace: String, module: &Module, instance: &Instance)
        requires
            old(self).wf(),
            instance.spec_exports().len() == module.spec_exports().len(),
        ensures
            final(self).wf(),
            final(self).spec_entries().len() == old(self).spec_entries().len() + 1,
            forall|i: int|
                0 <= i < old(self).spec_entries().len() ==> final(self).spec_entries()[i]
                    == old(self).spec_entries()[i],
            ({
                let e = final(self).spec_entries().last();
                &&& e.spec_namespace() == namespace@
                &&& e.spec_names().len() == module.spec_exports().len()
                &&& forall|k: int|
                    0 <= k < e.spec_names().len() ==> #[trigger] e.spec_names()[k]
                        == module.spec_exports()[k].spec_name()
                &&& e.spec_externs() == instance.spec_exports()
            }),
    {
        let exports = module.exports();
        let mut names: Vec<String> = Vec::new();
        let mut externs: Vec<Extern> = Vec::new();
        let mut k: usize = 0;
        while k < exports.len()
            invariant
                exports@ == module.spec_exports(),
                instance.spec_exports().len() == exports@.len(),
                k <= exports@.len(),
                names@.len() == k,
                externs@.len() == k,
                forall|j: int| 0 <= j < k ==> (#[trigger] names@[j])@ == exports@[j].spec_name(),
                forall|j: int| 0 <= j < k ==> (#[trigger] externs@[j]) == instance.spec_exports()[j],
            decreases exports@.len() - k,
        {
            names.push(exports[k].name().to_string());
            externs.push(instance.export(k));
            k = k + 1;
        }
        assert(externs@ =~= instance.spec_exports());
        let entry = RegistryEntry { namespace, names, externs };
        self.entries.push(entry);
        assert(final(self).spec_entries().last().spec_names().len() == module.spec_exports().len());
    }

    /// The extern registered as `field` of namespace `ns`, if any.
    pub fn lookup(&self, ns: &String, field: &String) -> (r: Option<Extern>)
        requires
            self.wf(),
        ensures
            r == spec_lookup(self.spec_entries(), ns@, field@),
    {
        let mut i: usize = 0;
        while i < self.entries.len()
            invariant
                self.wf(),
                i <= self.entries@.len(),
                forall|j: int| 0 <= j < i ==> (#[trigger] self.entries@[j]).spec_namespace() != ns@,
            decreases self.entries@.len() - i,
        {
            let entry = &self.entries[i];
            if entry.namespace == *ns {
                assert(is_first_namespace(self.entries@, ns@, i as int));
                let ghost c = choose|c: int| is_first_namespace(self.entries@, ns@, c);
                assert(c == i);
                assert(entry.wf());
                let mut k: usize = 0;
                while k < entry.names.len()
                    invariant
                        entry.wf(),
                        i < self.entries@.len(),
                        self.entries@[i as int] == *entry,
                        is_first_namespace(self.entries@, ns@, i as int),
                        c == i,
                        k <= entry.names@.len(),
                        forall|j: int|
                            0 <= j < k ==> (#[trigger] entry.spec_names()[j]) != field@,
                    decreases entry.names@.len() - k,
                {
                    if entry.names[k] == *field {
                        assert(is_first_name(entry.spec_names(), field@, k as int));
                        let ghost d = choose|d: int| is_first_name(entry.spec_names(), field@, d);
                        assert(d == k);
                        assert(self.entries@[c] == *entry);
                        assert(is_first_name(self.entries@[c].spec_names(), field@, k as int));
                        assert(exists|i: int| is_first_namespace(self.spec_entries(), ns@, i));
                        assert((choose|i: int| is_first_namespace(self.spec_entries(), ns@, i))
                            == i as int);
                        assert(exists|d: int| is_first_name(entry.spec_names(), field@, d));
                        assert(spec_lookup(self.spec_entries(), ns@, field@) == Some(
                            entry.spec_externs()[k as int],
                        ));
                        return Some(entry.externs[k].share());
                    }
                    k = k + 1;
                }
                assert(!exists|d: int| is_first_name(entry.spec_names(), field@, d));
                return None;
            }
            i = i + 1;
        }
        None
    }

    /// Finds an extern for every import of `module`, in declared order. The
    /// first import that nothing is registered for is reported, with its
    /// namespace and field.
    pub fn resolve_imports(&self, module: &Module) -> (r: Result<Vec<Extern>, Error>)
        requires
            self.wf(),
        ensures
            (forall|i: int|
                0 <= i < module.spec_imports().len() ==> resolvable(
                    self.spec_entries(),
                    #[trigger] module.spec_imports()[i],
                )) ==> r is Ok && r->Ok_0@.len() == module.spec_imports().len() && forall|i: int|
                0 <= i < module.spec_imports().len() ==> Some(#[trigger] r->Ok_0@[i]) == spec_lookup(
                    self.spec_entries(),
                    module.spec_imports()[i].spec_module(),
                    module.spec_imports()[i].spec_name(),
                ),
            !(forall|i: int|
                0 <= i < module.spec_imports().len() ==> resolvable(
                    self.spec_entries(),
                    #[trigger] module.spec_imports()[i],
                )) ==> r is Err && exists|k: int|
                first_unresolvable(self.spec_entries(), module.spec_imports(), k)
                    && is_resolution_error(
                    r->Err_0,
                    module.spec_imports()[k].spec_module(),
                    module.spec_imports()[k].spec_name(),
                ),
    {
        let imports = module.imports();
        let mut out: Vec<Extern> = Vec::new();
        let mut i: usize = 0;
        while i < imports.len()
            invariant
                self.wf(),
                imports@ == module.spec_imports(),
                i <= imports@.len(),
                out@.len() == i,
                forall|j: int| 0 <= j < i ==> resolvable(self.spec_entries(), #[trigger] imports@[j]),
                forall|j: int|
                    0 <= j < i ==> Some(#[trigger] out@[j]) == spec_lookup(
                        self.spec_entries(),
                        imports@[j].spec_module(),
                        imports@[j].spec_name(),
                    ),
            decreases imports@.len() - i,
        {
            let import = &imports[i];
            match self.lookup(import.module().as_string(), import.name().as_string()) {
                Some(e) => out.push(e),
                None => {
                    assert(first_unresolvable(self.spec_entries(), imports@, i as int));
                    return Err(
                        Error::ImportResolution {
                            module: import.module().to_string(),
                            field: import.name().to_string(),
                        },
                    );
                },
            }
            i = i + 1;
        }
        Ok(out)
    }
}

} // verus!
