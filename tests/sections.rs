use wasmtime_api::{
    CompileFailure, Error, ExportKind, ExternType, FuncType, GlobalType, Limits, MemoryType, Module,
    ModuleSections, Mutability, RawExport, RawImport, RawImportKind, TableType, ValType,
};

fn sections() -> ModuleSections {
    ModuleSections {
        types: vec![
            FuncType::new(vec![ValType::I32, ValType::I32], vec![ValType::I32]),
            FuncType::new(vec![], vec![ValType::F64]),
        ],
        imports: vec![
            RawImport {
                module: String::from("env"),
                field: String::from("mem"),
                kind: RawImportKind::Memory(MemoryType::new(Limits::at_least(1))),
            },
            RawImport { module: String::from("env"), field: String::from("f"), kind: RawImportKind::Func(1) },
        ],
        functions: vec![0],
        tables: vec![TableType::new(ValType::FuncRef, Limits::new(0, 3))],
        memories: vec![],
        globals: vec![GlobalType::new(ValType::I64, Mutability::Var)],
        exports: vec![
            RawExport { name: String::from("gcd"), kind: ExportKind::Func, index: 1 },
            RawExport { name: String::from("f"), kind: ExportKind::Func, index: 0 },
            RawExport { name: String::from("mem"), kind: ExportKind::Memory, index: 0 },
            RawExport { name: String::from("g"), kind: ExportKind::Global, index: 0 },
            RawExport { name: String::from("t"), kind: ExportKind::Table, index: 0 },
        ],
    }
}

#[test]
fn sections_join_into_ordered_metadata() {
    let info = sections().module_info().unwrap();
    assert_eq!(info.imports.len(), 2);
    assert_eq!(info.imports[0].module().as_str(), "env");
    assert_eq!(info.imports[0].name().as_str(), "mem");
    assert!(matches!(info.imports[0].ty(), ExternType::ExternMemory(_)));
    assert_eq!(info.imports[1].ty().func().results(), &[ValType::F64]);
    let names: Vec<String> = info.exports.iter().map(|e| e.name().to_string()).collect();
    assert_eq!(names, vec!["gcd", "f", "mem", "g", "t"]);
    assert_eq!(info.exports[0].ty().func().params(), &[ValType::I32, ValType::I32]);
    assert_eq!(info.exports[1].ty().func().results(), &[ValType::F64]);
    assert_eq!(info.exports[2].ty().memory().limits().min, 1);
    assert_eq!(*info.exports[3].ty().global().content(), ValType::I64);
    assert_eq!(info.exports[4].ty().table().limits().max, 3);
}

#[test]
fn unknown_type_index_is_invalid() {
    let mut s = sections();
    s.functions = vec![5];
    assert!(matches!(s.module_info(), Err(CompileFailure::Invalid)));
    let mut s = sections();
    s.imports[1].kind = RawImportKind::Func(2);
    assert!(matches!(s.module_info(), Err(CompileFailure::Invalid)));
}

#[test]
fn export_out_of_its_index_space_is_invalid() {
    let mut s = sections();
    s.exports.push(RawExport { name: String::from("x"), kind: ExportKind::Func, index: 2 });
    assert!(matches!(s.module_info(), Err(CompileFailure::Invalid)));
    let mut s = sections();
    s.exports.push(RawExport { name: String::from("m2"), kind: ExportKind::Memory, index: 1 });
    assert!(matches!(s.module_info(), Err(CompileFailure::Invalid)));
}

fn empty_sections() -> ModuleSections {
    ModuleSections {
        types: vec![],
        imports: vec![],
        functions: vec![],
        tables: vec![],
        memories: vec![],
        globals: vec![],
        exports: vec![],
    }
}

const EMPTY_MODULE: [u8; 8] = [0, 0x61, 0x73, 0x6d, 1, 0, 0, 0];

#[test]
fn valid_binary_loads_with_its_metadata() {
    let m = Module::load(EMPTY_MODULE.to_vec(), Ok(empty_sections())).unwrap();
    assert_eq!(m.binary(), &EMPTY_MODULE);
    assert!(m.imports().is_empty());
    assert!(m.exports().is_empty());
}

#[test]
fn binary_that_fails_validation_is_refused() {
    // A function section naming type 0 in a module that declares no types.
    let bytes = vec![0, 0x61, 0x73, 0x6d, 1, 0, 0, 0, 3, 2, 1, 0];
    assert!(matches!(Module::load(bytes, Ok(empty_sections())), Err(Error::Validation)));
}

#[test]
fn unreadable_or_inconsistent_sections_are_refused() {
    assert!(matches!(
        Module::load(vec![1, 2, 3], Err(CompileFailure::Malformed)),
        Err(Error::Binary)
    ));
    let mut s = empty_sections();
    s.functions = vec![0];
    assert!(matches!(Module::load(EMPTY_MODULE.to_vec(), Ok(s)), Err(Error::Validation)));
}
