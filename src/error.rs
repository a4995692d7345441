use vstd::prelude::*;

verus! {

/// The abnormal end of a guest call. It carries no partial results.
#[derive(Debug, Clone, Copy, PartialEq, Eq, Structural)]
pub struct Trap;

/// Everything that can go wrong while loading, linking, instantiating or
/// calling, apart from the guest itself trapping during a call.
#[derive(Debug, Clone)]
pub enum Error {
    /// The module bytes are not a wasm binary.
    Binary,
    /// The binary breaks the wasm well-formedness rules.
    Validation,
    /// The number of supplied externs differs from the number of imports.
    ImportArity { expected: usize, supplied: usize },
    /// No export was found for the import `module`/`field`.
    ImportResolution { module: String, field: String },
    /// The extern bound to import `module`/`field` has the wrong type.
    ImportTypeMismatch { module: String, field: String },
    /// The start function trapped.
    InstantiationTrap,
    /// The engine could not set the instance up for want of a resource.
    EngineSetup,
    /// An export declared by the module is missing from the compiled
    /// instance, or is not of the declared type.
    ExportLookup { name: String },
    /// A global is initialised by something other than an integer constant.
    UnsupportedInitializer,
    /// The compiled instance exports an entity of an unknown kind.
    UnsupportedExportKind,
    /// A value or type of this kind cannot cross the native boundary.
    UnsupportedValueKind,
    /// No trampoline could be produced for the call.
    TrampolineSetup,
    /// The guest trapped during a call.
    Trap(Trap),
}

} // verus!
