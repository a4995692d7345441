use std::rc::Rc;
use wasmtime_api::{
    bind_imports, resolve, resolve_nth, CompileFailure, ContextIds, ImportName, CompiledInstance, Config, Engine, Error, ExportDescriptor,
    ExportType, Extern, ExternType, Func, FuncType, Global, GlobalInit, GlobalType, ImportType,
    Instance, InstantiateFailure, Limits, Memory, MemoryType, Module, ModuleInfo, Mutability,
    Name, NamedExport, NativeSignature, NativeType, Registry, Store, TableElement, Val, ValType,
};

fn name(s: &str) -> Name {
    Name::new(String::from(s))
}

fn binary_op() -> FuncType {
    FuncType::new(vec![ValType::I32, ValType::I32], vec![ValType::I32])
}

fn binary_op_signature() -> NativeSignature {
    binary_op().to_native_signature().unwrap()
}

fn func_export(fname: &str, address: usize) -> NamedExport {
    NamedExport {
        name: String::from(fname),
        export: ExportDescriptor::Function { address, vmctx: 0x10, signature: binary_op_signature() },
    }
}

fn module_exporting(fname: &str) -> Module {
    let info = ModuleInfo {
        imports: vec![],
        exports: vec![ExportType::new(name(fname), ExternType::ExternFunc(binary_op()))],
    };
    Module::new(vec![0, 0x61, 0x73, 0x6d], Ok(info)).unwrap()
}

fn module_importing(ns: &str, field: &str, ty: ExternType) -> Module {
    let info = ModuleInfo {
        imports: vec![ImportType::new(name(ns), name(field), ty)],
        exports: vec![ExportType::new(name("forward"), ExternType::ExternFunc(binary_op()))],
    };
    Module::new(vec![0, 0x61, 0x73, 0x6d], Ok(info)).unwrap()
}

fn store(ids: &mut ContextIds) -> Store {
    Store::new(Rc::new(Engine::default()), ids)
}

#[test]
fn module_errors_are_typed() {
    assert!(matches!(Module::new(vec![1, 2], Err(CompileFailure::Malformed)), Err(Error::Binary)));
    assert!(matches!(
        Module::new(vec![0, 0x61, 0x73, 0x6d], Err(CompileFailure::Invalid)),
        Err(Error::Validation)
    ));
}

#[test]
fn stores_get_distinct_contexts() {
    let mut ids = ContextIds::new();
    let e1 = Rc::new(Engine::new(Config::new(true)));
    let e2 = Rc::new(Engine::new(Config::new(true)));
    let s1 = Store::new(e1.clone(), &mut ids);
    let s2 = Store::new(e1.clone(), &mut ids);
    let s3 = Store::new(e2, &mut ids);
    assert_ne!(s1.context(), s2.context());
    assert_ne!(s1.context(), s3.context());
    assert_ne!(s2.context(), s3.context());
    assert!(s1.context().debug_info());
    assert!(Rc::ptr_eq(s1.engine(), &e1));
    assert_eq!(ids.next_id(), 3);
    assert!(!Engine::default().config().debug_info());
}

#[test]
fn context_is_taken_and_given_back() {
    let mut ids = ContextIds::new();
    let mut s = store(&mut ids);
    assert!(!s.is_context_held());
    let c = s.acquire_context();
    assert_eq!(c, *s.context());
    assert!(s.is_context_held());
    s.release_context();
    assert!(!s.is_context_held());
}

#[test]
fn exports_follow_declaration_order() {
    let mut ids = ContextIds::new();
    let s = store(&mut ids);
    let info = ModuleInfo {
        imports: vec![],
        exports: vec![
            ExportType::new(name("mem"), ExternType::ExternMemory(MemoryType::new(Limits::at_least(1)))),
            ExportType::new(name("g"), ExternType::ExternGlobal(GlobalType::new(ValType::I64, Mutability::Var))),
            ExportType::new(name("add"), ExternType::ExternFunc(binary_op())),
        ],
    };
    let module = Module::new(vec![0], Ok(info)).unwrap();
    let compiled = CompiledInstance {
        handle: 9,
        exports: vec![
            func_export("add", 0x40),
            NamedExport {
                name: String::from("g"),
                export: ExportDescriptor::Global { ty: NativeType::I64, mutable: true, initializer: GlobalInit::I64Const(-4) },
            },
            NamedExport { name: String::from("mem"), export: ExportDescriptor::Memory { minimum: 1, maximum: None } },
        ],
    };
    let inst = Instance::new(&s, &module, &[], Ok(compiled)).unwrap();
    assert_eq!(inst.handle(), 9);
    let exports = inst.exports();
    assert_eq!(exports.len(), 3);
    assert_eq!(exports[0].memory().ty().limits().max, u32::MAX);
    let g = exports[1].global();
    assert_eq!(g.get().to_i64(), Some(-4));
    assert_eq!(g.ty().mutability(), Mutability::Var);
    let f = exports[2].func();
    assert_eq!(f.ty().params(), &[ValType::I32, ValType::I32]);
    assert_eq!(f.code().as_ref().unwrap().address, 0x40);
    assert_eq!(f.code().as_ref().unwrap().context, s.context().id());
    assert_eq!(inst.contexts().len(), 1);
    assert!(inst.contexts().contains(&s.context().id()));
}

#[test]
fn missing_export_is_an_export_lookup_error() {
    let mut ids = ContextIds::new();
    let s = store(&mut ids);
    let module = module_exporting("gcd");
    let compiled = CompiledInstance { handle: 1, exports: vec![func_export("other", 0)] };
    match Instance::new(&s, &module, &[], Ok(compiled)) {
        Err(Error::ExportLookup { name }) => assert_eq!(name, "gcd"),
        other => panic!("unexpected {:?}", other.map(|_| ())),
    }
}

#[test]
fn unsupported_exports_are_typed_errors() {
    let mut ids = ContextIds::new();
    let s = store(&mut ids);
    let info = ModuleInfo {
        imports: vec![],
        exports: vec![ExportType::new(name("g"), ExternType::ExternGlobal(GlobalType::new(ValType::I32, Mutability::Const)))],
    };
    let module = Module::new(vec![0], Ok(info)).unwrap();
    let by_import = CompiledInstance {
        handle: 1,
        exports: vec![NamedExport {
            name: String::from("g"),
            export: ExportDescriptor::Global { ty: NativeType::I32, mutable: false, initializer: GlobalInit::Import },
        }],
    };
    assert!(matches!(Instance::new(&s, &module, &[], Ok(by_import)), Err(Error::UnsupportedInitializer)));
    let unknown = CompiledInstance {
        handle: 1,
        exports: vec![NamedExport { name: String::from("g"), export: ExportDescriptor::Unknown }],
    };
    assert!(matches!(Instance::new(&s, &module, &[], Ok(unknown)), Err(Error::UnsupportedExportKind)));
    let table = Extern::from_export(0, &ExportDescriptor::Table { element: TableElement::Func, minimum: 2, maximum: Some(8) }).unwrap();
    assert_eq!(*table.table().ty().element(), ValType::FuncRef);
    assert_eq!(*table.table().ty().limits(), Limits::new(2, 8));
    let bad_table = Extern::from_export(0, &ExportDescriptor::Table { element: TableElement::Val(NativeType::I8), minimum: 0, maximum: None });
    assert!(matches!(bad_table, Err(Error::UnsupportedValueKind)));
}

#[test]
fn start_trap_fails_instantiation() {
    let mut ids = ContextIds::new();
    let s = store(&mut ids);
    let module = module_exporting("gcd");
    let r = Instance::new(&s, &module, &[], Err(InstantiateFailure::StartTrap));
    assert!(matches!(r, Err(Error::InstantiationTrap)));
}

#[test]
fn link_failure_names_the_import() {
    let mut ids = ContextIds::new();
    let s = store(&mut ids);
    let module = module_exporting("gcd");
    let failure = InstantiateFailure::Link {
        unsupplied: Some(ImportName { module: String::from("env"), field: String::from("f") }),
        last_supplied: Some(ImportName { module: String::from("env"), field: String::from("g") }),
    };
    match Instance::new(&s, &module, &[], Err(failure)) {
        Err(Error::ImportResolution { module, field }) => assert_eq!((module.as_str(), field.as_str()), ("env", "f")),
        other => panic!("unexpected {:?}", other.map(|_| ())),
    }
}

#[test]
fn missing_import_in_registry_is_a_resolution_error() {
    let module = module_importing("env", "missing_fn", ExternType::ExternFunc(binary_op()));
    let registry = Registry::new();
    match registry.resolve_imports(&module) {
        Err(Error::ImportResolution { module, field }) => {
            assert_eq!(module, "env");
            assert_eq!(field, "missing_fn");
        }
        other => panic!("unexpected {:?}", other.map(|v| v.len())),
    }
}

#[test]
fn too_few_externs_is_an_arity_error() {
    let module = module_importing("env", "f", ExternType::ExternFunc(binary_op()));
    match bind_imports(&module, &[]) {
        Err(Error::ImportArity { expected, supplied }) => assert_eq!((expected, supplied), (1, 0)),
        other => panic!("unexpected {:?}", other.map(|v| v.len())),
    }
}

#[test]
fn wrong_extern_type_is_a_mismatch_error() {
    let module = module_importing("env", "f", ExternType::ExternFunc(binary_op()));
    let mem = Extern::Memory(Rc::new(Memory::new(MemoryType::new(Limits::at_least(1)))));
    match bind_imports(&module, &[mem]) {
        Err(Error::ImportTypeMismatch { module, field }) => assert_eq!((module.as_str(), field.as_str()), ("env", "f")),
        other => panic!("unexpected {:?}", other.map(|v| v.len())),
    }
    let g = Extern::Global(Rc::new(Global::new(GlobalType::new(ValType::I32, Mutability::Const), Val::from(1))));
    let gmod = module_importing("env", "g", ExternType::ExternGlobal(GlobalType::new(ValType::I32, Mutability::Var)));
    assert!(matches!(bind_imports(&gmod, &[g]), Err(Error::ImportTypeMismatch { .. })));
}

#[test]
fn imports_resolve_in_declared_order() {
    let mut ids = ContextIds::new();
    let s = store(&mut ids);
    let info = ModuleInfo {
        imports: vec![],
        exports: vec![
            ExportType::new(name("a"), ExternType::ExternFunc(binary_op())),
            ExportType::new(name("b"), ExternType::ExternFunc(binary_op())),
        ],
    };
    let provider = Module::new(vec![0], Ok(info)).unwrap();
    let compiled = CompiledInstance { handle: 1, exports: vec![func_export("a", 0xa), func_export("b", 0xb)] };
    let inst = Instance::new(&s, &provider, &[], Ok(compiled)).unwrap();
    let mut registry = Registry::new();
    registry.register(String::from("lib"), &provider, &inst);
    let consumer = Module::new(
        vec![0],
        Ok(ModuleInfo {
            imports: vec![
                ImportType::new(name("lib"), name("b"), ExternType::ExternFunc(binary_op())),
                ImportType::new(name("lib"), name("a"), ExternType::ExternFunc(binary_op())),
            ],
            exports: vec![],
        }),
    )
    .unwrap();
    let externs = registry.resolve_imports(&consumer).unwrap();
    assert_eq!(externs[0].func().code().as_ref().unwrap().address, 0xb);
    assert_eq!(externs[1].func().code().as_ref().unwrap().address, 0xa);
    let bindings = bind_imports(&consumer, &externs).unwrap();
    assert_eq!(bindings[0].field, "b");
    assert_eq!(bindings[1].field, "a");
    let found = resolve(&bindings, &String::from("lib"), &String::from("a")).unwrap();
    assert!(Rc::ptr_eq(found.func(), externs[1].func()));
    assert!(resolve(&bindings, &String::from("lib"), &String::from("c")).is_none());
}

#[test]
fn export_of_one_instance_feeds_another() {
    let mut ids = ContextIds::new();
    let store_a = store(&mut ids);
    let store_b = store(&mut ids);
    let module_a = module_exporting("gcd");
    let inst_a = Instance::new(&store_a, &module_a, &[], Ok(CompiledInstance { handle: 1, exports: vec![func_export("gcd", 0x100)] })).unwrap();
    let module_b = module_importing("a", "gcd", ExternType::ExternFunc(binary_op()));
    let mut registry = Registry::new();
    registry.register(String::from("a"), &module_a, &inst_a);
    let imports = registry.resolve_imports(&module_b).unwrap();
    assert!(Rc::ptr_eq(imports[0].func(), inst_a.exports()[0].func()));
    let bindings = bind_imports(&module_b, &imports).unwrap();
    assert!(Rc::ptr_eq(bindings[0].ext.func(), inst_a.exports()[0].func()));
    let inst_b = Instance::new(&store_b, &module_b, &imports, Ok(CompiledInstance { handle: 2, exports: vec![func_export("forward", 0x200)] })).unwrap();
    let mut contexts: Vec<u64> = inst_b.contexts().iter().copied().collect();
    contexts.sort();
    assert_eq!(contexts, vec![store_a.context().id(), store_b.context().id()]);
    let through_b = imports[0].func();
    let direct = inst_a.exports()[0].func();
    assert_eq!(through_b.ty().params(), direct.ty().params());
    assert_eq!(through_b.code().as_ref().unwrap().address, direct.code().as_ref().unwrap().address);
}

#[test]
fn global_set_replaces_the_value() {
    let mut g = Global::new(GlobalType::new(ValType::I32, Mutability::Var), Val::from(1));
    g.set(Val::from(2));
    assert_eq!(g.get().to_i32(), Some(2));
    let f = Func::new(binary_op());
    assert!(f.code().is_none());
    assert_eq!(f.param_arity(), 2);
    let e = Extern::Func(Rc::new(f));
    assert!(e.matches(&ExternType::ExternFunc(binary_op())));
    assert!(matches!(e.ty(), ExternType::ExternFunc(_)));
}

fn gcd_compiled() -> Result<CompiledInstance, InstantiateFailure> {
    Ok(CompiledInstance { handle: 3, exports: vec![func_export("forward", 0x300)] })
}

#[test]
fn instance_checks_the_number_of_imports() {
    let mut ids = ContextIds::new();
    let s = store(&mut ids);
    let module = module_importing("env", "f", ExternType::ExternFunc(binary_op()));
    match Instance::new(&s, &module, &[], gcd_compiled()) {
        Err(Error::ImportArity { expected, supplied }) => assert_eq!((expected, supplied), (1, 0)),
        other => panic!("unexpected {:?}", other.map(|_| ())),
    }
    let f = Extern::Func(Rc::new(Func::new(binary_op())));
    let two = [f.share(), f.share()];
    match Instance::new(&s, &module, &two, gcd_compiled()) {
        Err(Error::ImportArity { expected, supplied }) => assert_eq!((expected, supplied), (1, 2)),
        other => panic!("unexpected {:?}", other.map(|_| ())),
    }
    assert!(Instance::new(&s, &module, &[f], gcd_compiled()).is_ok());
}

#[test]
fn instance_checks_the_type_of_imports() {
    let mut ids = ContextIds::new();
    let s = store(&mut ids);
    let module = module_importing("env", "f", ExternType::ExternFunc(binary_op()));
    let wrong = Extern::Func(Rc::new(Func::new(FuncType::new(vec![], vec![]))));
    match Instance::new(&s, &module, &[wrong], gcd_compiled()) {
        Err(Error::ImportTypeMismatch { module, field }) => {
            assert_eq!((module.as_str(), field.as_str()), ("env", "f"))
        }
        other => panic!("unexpected {:?}", other.map(|_| ())),
    }
}

#[test]
fn export_of_another_type_than_declared_is_refused() {
    let mut ids = ContextIds::new();
    let s = store(&mut ids);
    let module = module_exporting("gcd");
    let compiled = CompiledInstance {
        handle: 1,
        exports: vec![NamedExport {
            name: String::from("gcd"),
            export: ExportDescriptor::Memory { minimum: 1, maximum: None },
        }],
    };
    match Instance::new(&s, &module, &[], Ok(compiled)) {
        Err(Error::ExportLookup { name }) => assert_eq!(name, "gcd"),
        other => panic!("unexpected {:?}", other.map(|_| ())),
    }
    let other_sig = NativeSignature { params: vec![], results: vec![] };
    let compiled = CompiledInstance {
        handle: 1,
        exports: vec![NamedExport {
            name: String::from("gcd"),
            export: ExportDescriptor::Function { address: 1, vmctx: 2, signature: other_sig },
        }],
    };
    assert!(matches!(Instance::new(&s, &module, &[], Ok(compiled)), Err(Error::ExportLookup { .. })));
}

#[test]
fn engine_failures_are_typed() {
    let mut ids = ContextIds::new();
    let s = store(&mut ids);
    let module = module_exporting("gcd");
    assert!(matches!(
        Instance::new(&s, &module, &[], Err(InstantiateFailure::Resource)),
        Err(Error::EngineSetup)
    ));
    assert!(matches!(
        Instance::new(&s, &module, &[], Err(InstantiateFailure::Link { unsupplied: None, last_supplied: None })),
        Err(Error::EngineSetup)
    ));
    let refused = InstantiateFailure::Link {
        unsupplied: None,
        last_supplied: Some(ImportName { module: String::from("env"), field: String::from("f") }),
    };
    match Instance::new(&s, &module, &[], Err(refused)) {
        Err(Error::ImportTypeMismatch { module, field }) => {
            assert_eq!((module.as_str(), field.as_str()), ("env", "f"))
        }
        other => panic!("unexpected {:?}", other.map(|_| ())),
    }
}

#[test]
fn repeated_imports_resolve_by_position() {
    let module = Module::new(
        vec![0],
        Ok(ModuleInfo {
            imports: vec![
                ImportType::new(name("env"), name("f"), ExternType::ExternFunc(binary_op())),
                ImportType::new(name("env"), name("f"), ExternType::ExternFunc(binary_op())),
            ],
            exports: vec![],
        }),
    )
    .unwrap();
    let first = Extern::Func(Rc::new(Func::new(binary_op())));
    let second = Extern::Func(Rc::new(Func::new(binary_op())));
    let bindings = bind_imports(&module, &[first.share(), second.share()]).unwrap();
    let env = String::from("env");
    let f = String::from("f");
    assert!(Rc::ptr_eq(resolve_nth(&bindings, &env, &f, 0).unwrap().func(), first.func()));
    assert!(Rc::ptr_eq(resolve_nth(&bindings, &env, &f, 1).unwrap().func(), second.func()));
    assert!(resolve_nth(&bindings, &env, &f, 2).is_none());
    assert!(Rc::ptr_eq(resolve(&bindings, &env, &f).unwrap().func(), first.func()));
}
