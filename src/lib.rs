//! Host-side object model for embedding a WebAssembly engine: types, values,
//! the native calling-convention bridge, import resolution and instantiation.
pub mod bridge;
pub mod error;
pub mod externals;
pub mod instance;
pub mod module;
pub mod resolve;
pub mod runtime;
pub mod types;
pub mod values;

pub use crate::bridge::{finish_call, pack_arguments, unpack_results, InvokeOutcome};
pub use crate::error::{Error, Trap};
pub use crate::externals::{
    Callable, CompiledCode, ExportDescriptor, Extern, Func, Global, GlobalInit, Memory, Table,
    TableElement,
};
pub use crate::instance::{
    CompiledInstance, ImportName, Instance, InstantiateFailure, NamedExport,
};
pub use crate::module::{
    CompileFailure, ExportKind, Module, ModuleInfo, ModuleSections, RawExport, RawImport,
    RawImportKind,
};
pub use crate::resolve::{
    bind_imports, resolve, resolve_nth, Binding, Registry, RegistryEntry,
};
pub use crate::runtime::{Config, Context, ContextIds, Engine, Store};
pub use crate::types::{
    AbiParam, ExportType, ExternType, FuncType, GlobalType, ImportType, Limits, MemoryType,
    Mutability, Name, NativeSignature, NativeType, ParamPurpose, TableType, ValType,
};
pub use crate::values::{AnyRef, FuncRef, Val};
