//! Host-visible wrappers for functions, globals, tables and memories, and the
//! conversion of a compiled instance's exports into them.
use crate::bridge::{finish_call, pack_arguments, spec_arg_buffer, spec_results_of, InvokeOutcome};
use crate::error::{Error, Trap};
use crate::types::{
    all_num, spec_params_from_native, spec_results_from_native, ExternType, FuncType, GlobalType,
    Limits, MemoryType, Mutability, NativeSignature, NativeType, TableType, ValType,
};
use crate::values::{AnyRef, Val};
use crate::bridge::all_marshal;
use std::rc::Rc;
use vstd::prelude::*;

verus! {

/// A function that the host can call with typed values: a host callback,
/// or an adapter that runs compiled code through the bridge.
///
/// `spec_outcome` describes a call as a function of the callable, the
/// arguments and the slots handed over. A callable whose outcome also
/// depends on other state (compiled code reading its memory or globals,
/// arbitrary host code) meets that description only while the state it
/// reads is unchanged.
pub trait Callable {
    /// What a call with `params` makes of the result slots `slots`: the
    /// filled slots, or `None` when it traps. Left unspecified unless an
    /// implementation states it.
    closed spec fn spec_outcome(&self, params: Seq<Val>, slots: Seq<Val>) -> Option<Seq<Val>> {
        arbitrary()
    }

    /// Computes the results into `results`, which arrives pre-sized to the
    /// function's result arity and keeps its length.
    fn call(&self, params: &[Val], results: &mut Vec<Val>) -> (r: Result<(), Trap>)
        ensures
            final(results)@.len() == old(results)@.len(),
            r is Ok <==> self.spec_outcome(params@, old(results)@) is Some,
            r is Ok ==> final(results)@ == self.spec_outcome(params@, old(results)@)->Some_0,
    ;
}

/// The slots handed to a callable: one null reference per result.
pub open spec fn spec_default_slots(n: nat) -> Seq<Val> {
    Seq::new(n, |i: int| Val::AnyRef(Rc::new(AnyRef)))
}

fn default_slots(n: usize) -> (r: Vec<Val>)
    ensures
        r@ == spec_default_slots(n as nat),
{
    let mut r: Vec<Val> = Vec::new();
    let mut i: usize = 0;
    while i < n
        invariant
            i <= n,
            r@ == spec_default_slots(i as nat),
        decreases n - i,
    {
        r.push(Val::default());
        i = i + 1;
        assert(r@ =~= spec_default_slots(i as nat));
    }
    r
}

/// Where the machine code of a compiled function lives.
#[derive(Debug, Clone)]
pub struct CompiledCode {
    /// Identifier of the compilation context that owns the code.
    pub context: u64,
    /// Address of the function body.
    pub address: usize,
    /// Execution-context pointer handed to the body.
    pub vmctx: usize,
    /// The function's native signature.
    pub signature: NativeSignature,
}

/// A function: its wasm-level type and, when compiled, where its code lives.
#[derive(Debug)]
pub struct Func {
    ty: FuncType,
    code: Option<CompiledCode>,
}

impl Func {
    pub closed spec fn spec_ty(&self) -> FuncType {
        self.ty
    }

    pub closed spec fn spec_code(&self) -> Option<CompiledCode> {
        self.code
    }

    pub open spec fn spec_param_arity(&self) -> nat {
        self.spec_ty().spec_params().len()
    }

    pub open spec fn spec_result_arity(&self) -> nat {
        self.spec_ty().spec_results().len()
    }

    /// A function whose body is a host callback.
    pub fn new(ty: FuncType) -> (r: Func)
        ensures
            r.spec_ty() == ty,
            r.spec_code() is None,
    {
        Func { ty, code: None }
    }

    /// A function backed by compiled code.
    pub fn new_compiled(ty: FuncType, code: CompiledCode) -> (r: Func)
        ensures
            r.spec_ty() == ty,
            r.spec_code() == Some(code),
    {
        Func { ty, code: Some(code) }
    }

    pub fn ty(&self) -> (r: &FuncType)
        ensures
            *r == self.spec_ty(),
    {
        &self.ty
    }

    pub fn code(&self) -> (r: &Option<CompiledCode>)
        ensures
            *r == self.spec_code(),
    {
        &self.code
    }

    pub fn param_arity(&self) -> (r: usize)
        ensures
            r == self.spec_param_arity(),
    {
        self.ty.params().len()
    }

    pub fn result_arity(&self) -> (r: usize)
        ensures
            r == self.spec_result_arity(),
    {
        self.ty.results().len()
    }

    /// What calling this function through `callable` gives: the slots the
    /// callable filled, or `None` when it trapped.
    pub open spec fn spec_call<C: Callable>(&self, callable: &C, params: Seq<Val>) -> Option<
        Seq<Val>,
    > {
        callable.spec_outcome(params, spec_default_slots(self.spec_result_arity()))
    }

    /// Calls the function through `callable`, handing it one null reference
    /// per declared result to fill. The results come back all together, as
    /// the callable left them, or not at all when it traps.
    pub fn call<C: Callable>(&self, callable: &C, params: &[Val]) -> (r: Result<Vec<Val>, Trap>)
        requires
            params@.len() == self.spec_param_arity(),
        ensures
            match self.spec_call(callable, params@) {
                Some(v) => r is Ok && r->Ok_0@ == v,
                None => r == Err::<Vec<Val>, Trap>(Trap),
            },
            r is Ok ==> r->Ok_0@.len() == self.spec_result_arity(),
    {
        let mut results = default_slots(self.result_arity());
        match callable.call(params, &mut results) {
            Ok(()) => Ok(results),
            Err(_) => Err(Trap),
        }
    }

    /// The argument buffer for a compiled call of this function.
    pub fn prepare_call(&self, params: &[Val]) -> (r: Result<Vec<u64>, Error>)
        requires
            params@.len() == self.spec_param_arity(),
        ensures
            all_marshal(params@) ==> r is Ok && r->Ok_0@ == spec_arg_buffer(
                params@,
                self.spec_result_arity(),
            ),
            !all_marshal(params@) ==> r == Err::<Vec<u64>, Error>(Error::UnsupportedValueKind),
    {
        pack_arguments(&self.ty, params)
    }

    /// The outcome of a compiled call of this function, from what its code
    /// did with the prepared buffer.
    pub fn finish_call(&self, outcome: InvokeOutcome) -> (r: Result<Vec<Val>, Error>)
        requires
            outcome is Completed ==> outcome->Completed_0@.len() >= self.spec_result_arity(),
        ensures
            outcome is SetupFailed ==> r == Err::<Vec<Val>, Error>(Error::TrampolineSetup),
            outcome is Trapped ==> r == Err::<Vec<Val>, Error>(Error::Trap(Trap)),
            outcome is Completed && all_num(self.spec_ty().spec_results()) ==> r is Ok
                && r->Ok_0@ == spec_results_of(outcome->Completed_0@, self.spec_ty().spec_results()),
            outcome is Completed && !all_num(self.spec_ty().spec_results()) ==> r == Err::<
                Vec<Val>,
                Error,
            >(Error::UnsupportedValueKind),
            r is Ok ==> r->Ok_0@.len() == self.spec_result_arity(),
    {
        finish_call(&self.ty, outcome)
    }
}

/// A global: its type and current value.
#[derive(Debug, Clone)]
pub struct Global {
    ty: GlobalType,
    val: Val,
}

impl Global {
    pub closed spec fn spec_ty(&self) -> GlobalType {
        self.ty
    }

    pub closed spec fn spec_val(&self) -> Val {
        self.val
    }

    pub fn new(ty: GlobalType, val: Val) -> (r: Global)
        ensures
            r.spec_ty() == ty,
            r.spec_val() == val,
    {
        Global { ty, val }
    }

    pub fn ty(&self) -> (r: &GlobalType)
        ensures
            *r == self.spec_ty(),
    {
        &self.ty
    }

    pub fn get(&self) -> (r: &Val)
        ensures
            *r == self.spec_val(),
    {
        &self.val
    }

    pub fn set(&mut self, val: Val)
        ensures
            final(self).spec_val() == val,
            final(self).spec_ty() == old(self).spec_ty(),
    {
        self.val = val;
    }
}

/// A table; only its type is represented here.
#[derive(Debug, Clone, Copy, PartialEq, Eq, Structural)]
pub struct Table {
    ty: TableType,
}

impl Table {
    pub closed spec fn spec_ty(&self) -> TableType {
        self.ty
    }

    pub fn new(ty: TableType) -> (r: Table)
        ensures
            r.spec_ty() == ty,
    {
        Table { ty }
    }

    pub fn ty(&self) -> (r: &TableType)
        ensures
            *r == self.spec_ty(),
    {
        &self.ty
    }
}

/// A linear memory; only its type is represented here.
#[derive(Debug, Clone, Copy, PartialEq, Eq, Structural)]
pub struct Memory {
    ty: MemoryType,
}

impl Memory {
    pub closed spec fn spec_ty(&self) -> MemoryType {
        self.ty
    }

    pub fn new(ty: MemoryType) -> (r: Memory)
        ensures
            r.spec_ty() == ty,
    {
        Memory { ty }
    }

    pub fn ty(&self) -> (r: &MemoryType)
        ensures
            *r == self.spec_ty(),
    {
        &self.ty
    }
}

/// An exported or imported entity. Exports of one instance and imports of
/// another share this form, so an export can be bound as an import as is.
#[derive(Debug, Clone)]
pub enum Extern {
    Func(Rc<Func>),
    Global(Rc<Global>),
    Table(Rc<Table>),
    Memory(Rc<Memory>),
}

/// An extern may be bound where `expected` is declared.
pub open spec fn spec_extern_matches(e: Extern, expected: ExternType) -> bool {
    match e {
        Extern::Func(f) => ExternType::ExternFunc(f.spec_ty()).spec_matches(expected),
        Extern::Global(g) => ExternType::ExternGlobal(g.spec_ty()).spec_matches(expected),
        Extern::Table(t) => ExternType::ExternTable(t.spec_ty()).spec_matches(expected),
        Extern::Memory(m) => ExternType::ExternMemory(m.spec_ty()).spec_matches(expected),
    }
}

impl Extern {
    pub fn func(&self) -> (r: &Rc<Func>)
        requires
            self is Func,
        ensures
            *r == self->Func_0,
    {
        match self {
            Extern::Func(f) => f,
            _ => unreached(),
        }
    }

    pub fn global(&self) -> (r: &Rc<Global>)
        requires
            self is Global,
        ensures
            *r == self->Global_0,
    {
        match self {
            Extern::Global(g) => g,
            _ => unreached(),
        }
    }

    pub fn table(&self) -> (r: &Rc<Table>)
        requires
            self is Table,
        ensures
            *r == self->Table_0,
    {
        match self {
            Extern::Table(t) => t,
            _ => unreached(),
        }
    }

    pub fn memory(&self) -> (r: &Rc<Memory>)
        requires
            self is Memory,
        ensures
            *r == self->Memory_0,
    {
        match self {
            Extern::Memory(m) => m,
            _ => unreached(),
        }
    }

    /// The compilation context whose code this extern runs, if it runs any.
    pub fn context(&self) -> (r: Option<u64>)
        ensures
            r == crate::instance::spec_extern_context(*self),
    {
        match self {
            Extern::Func(f) => match f.code() {
                Some(code) => Some(code.context),
                None => None,
            },
            _ => None,
        }
    }

    /// Another handle to the same entity.
    pub fn share(&self) -> (r: Extern)
        ensures
            r == *self,
    {
        match self {
            Extern::Func(f) => Extern::Func(Rc::clone(f)),
            Extern::Global(g) => Extern::Global(Rc::clone(g)),
            Extern::Table(t) => Extern::Table(Rc::clone(t)),
            Extern::Memory(m) => Extern::Memory(Rc::clone(m)),
        }
    }

    /// The type of the entity.
    pub fn ty(&self) -> (r: ExternType)
        ensures
            match *self {
                Extern::Func(f) => r is ExternFunc && r->ExternFunc_0.spec_params()
                    == f.spec_ty().spec_params() && r->ExternFunc_0.spec_results()
                    == f.spec_ty().spec_results(),
                Extern::Global(g) => r == ExternType::ExternGlobal(g.spec_ty()),
                Extern::Table(t) => r == ExternType::ExternTable(t.spec_ty()),
                Extern::Memory(m) => r == ExternType::ExternMemory(m.spec_ty()),
            },
    {
        match self {
            Extern::Func(f) => ExternType::ExternFunc(f.ty().duplicate()),
            Extern::Global(g) => ExternType::ExternGlobal(*g.ty()),
            Extern::Table(t) => ExternType::ExternTable(*t.ty()),
            Extern::Memory(m) => ExternType::ExternMemory(*m.ty()),
        }
    }

    /// Whether the entity may be bound where `expected` is declared.
    pub fn matches(&self, expected: &ExternType) -> (r: bool)
        ensures
            r == spec_extern_matches(*self, *expected),
    {
        let t = self.ty();
        t.matches(expected)
    }
}


/// How a compiled global gets its initial value.
#[derive(Debug, Clone, Copy, PartialEq, Eq, Structural)]
pub enum GlobalInit {
    I32Const(i32),
    I64Const(i64),
    F32Const(u32),
    F64Const(u64),
    /// The value of another global.
    GetGlobal(u32),
    /// The value of an imported global.
    Import,
}

/// What a compiled table holds.
#[derive(Debug, Clone, Copy, PartialEq, Eq, Structural)]
pub enum TableElement {
    Func,
    Val(NativeType),
}

/// An export of a compiled instance, as the engine describes it.
#[derive(Debug)]
pub enum ExportDescriptor {
    Function { address: usize, vmctx: usize, signature: NativeSignature },
    Table { element: TableElement, minimum: u32, maximum: Option<u32> },
    Memory { minimum: u32, maximum: Option<u32> },
    Global { ty: NativeType, mutable: bool, initializer: GlobalInit },
    /// An entity of a kind this layer does not know.
    Unknown,
}

pub open spec fn spec_max_or_unbounded(maximum: Option<u32>) -> u32 {
    match maximum {
        Some(m) => m,
        None => u32::MAX,
    }
}

pub open spec fn spec_table_element(element: TableElement) -> Option<ValType> {
    match element {
        TableElement::Func => Some(ValType::FuncRef),
        TableElement::Val(t) => ValType::spec_from_native(t),
    }
}

/// The error that converting `d` ends in, if any.
pub open spec fn spec_export_error(d: ExportDescriptor) -> Option<Error> {
    match d {
        ExportDescriptor::Function { signature, .. } =>
            if spec_params_from_native(signature.params@) is Some
                && spec_results_from_native(signature.results@) is Some {
                None
            } else {
                Some(Error::UnsupportedValueKind)
            },
        ExportDescriptor::Table { element, .. } =>
            if spec_table_element(element) is Some {
                None
            } else {
                Some(Error::UnsupportedValueKind)
            },
        ExportDescriptor::Memory { .. } => None,
        ExportDescriptor::Global { ty, initializer, .. } =>
            if ValType::spec_from_native(ty) is None {
                Some(Error::UnsupportedValueKind)
            } else if initializer is I32Const || initializer is I64Const {
                None
            } else {
                Some(Error::UnsupportedInitializer)
            },
        ExportDescriptor::Unknown => Some(Error::UnsupportedExportKind),
    }
}

/// `e` is the extern that `d` converts to, for code owned by `context`.
pub open spec fn spec_converted(context: u64, d: ExportDescriptor, e: Extern) -> bool {
    match d {
        ExportDescriptor::Function { address, vmctx, signature } => e is Func && {
            let f = e->Func_0;
            &&& f.spec_ty().spec_params() == spec_params_from_native(signature.params@)->Some_0
            &&& f.spec_ty().spec_results() == spec_results_from_native(signature.results@)->Some_0
            &&& f.spec_code() is Some
            &&& f.spec_code()->Some_0.context == context
            &&& f.spec_code()->Some_0.address == address
            &&& f.spec_code()->Some_0.vmctx == vmctx
            &&& f.spec_code()->Some_0.signature.params@ == signature.params@
            &&& f.spec_code()->Some_0.signature.results@ == signature.results@
        },
        ExportDescriptor::Table { element, minimum, maximum } => e is Table && {
            let t = e->Table_0.spec_ty();
            &&& t.spec_element() == spec_table_element(element)->Some_0
            &&& t.spec_limits() == Limits { min: minimum, max: spec_max_or_unbounded(maximum) }
        },
        ExportDescriptor::Memory { minimum, maximum } => e is Memory
            && e->Memory_0.spec_ty().spec_limits() == Limits {
            min: minimum,
            max: spec_max_or_unbounded(maximum),
        },
        ExportDescriptor::Global { ty, mutable, initializer } => e is Global && {
            let g = e->Global_0;
            &&& g.spec_ty().spec_content() == ValType::spec_from_native(ty)->Some_0
            &&& g.spec_ty().spec_mutability() == if mutable {
                Mutability::Var
            } else {
                Mutability::Const
            }
            &&& g.spec_val() == match initializer {
                GlobalInit::I32Const(i) => Val::I32(i),
                GlobalInit::I64Const(i) => Val::I64(i),
                _ => Val::I32(0),
            }
        },
        ExportDescriptor::Unknown => false,
    }
}

/// The extern that `d` converts to may stand where `t` is declared.
pub open spec fn spec_descriptor_matches(d: ExportDescriptor, t: ExternType) -> bool {
    match (d, t) {
        (ExportDescriptor::Function { signature, .. }, ExternType::ExternFunc(f)) => {
            &&& spec_params_from_native(signature.params@)->Some_0 == f.spec_params()
            &&& spec_results_from_native(signature.results@)->Some_0 == f.spec_results()
        },
        (ExportDescriptor::Table { element, minimum, maximum }, ExternType::ExternTable(b)) => {
            &&& spec_table_element(element)->Some_0 == b.spec_element()
            &&& (Limits { min: minimum, max: spec_max_or_unbounded(maximum) }).spec_satisfies(
                b.spec_limits(),
            )
        },
        (ExportDescriptor::Memory { minimum, maximum }, ExternType::ExternMemory(b)) =>
            (Limits { min: minimum, max: spec_max_or_unbounded(maximum) }).spec_satisfies(
                b.spec_limits(),
            ),
        (ExportDescriptor::Global { ty, mutable, .. }, ExternType::ExternGlobal(b)) => {
            &&& ValType::spec_from_native(ty)->Some_0 == b.spec_content()
            &&& b.spec_mutability() == if mutable {
                Mutability::Var
            } else {
                Mutability::Const
            }
        },
        _ => false,
    }
}

/// Whether a converted export fits a declared type can be read off its
/// descriptor.
pub proof fn lemma_converted_matches(context: u64, d: ExportDescriptor, e: Extern, t: ExternType)
    requires
        spec_converted(context, d, e),
    ensures
        spec_extern_matches(e, t) == spec_descriptor_matches(d, t),
{
}

impl Extern {
    /// Wraps an export of a compiled instance whose code belongs to the
    /// compilation context `context`.
    pub fn from_export(context: u64, export: &ExportDescriptor) -> (r: Result<Extern, Error>)
        ensures
            match spec_export_error(*export) {
                Some(err) => r == Err::<Extern, Error>(err),
                None => r is Ok && spec_converted(context, *export, r->Ok_0),
            },
    {
        match export {
            ExportDescriptor::Function { address, vmctx, signature } => {
                match FuncType::from_native_signature(signature) {
                    Some(ty) => {
                        let code = CompiledCode {
                            context,
                            address: *address,
                            vmctx: *vmctx,
                            signature: signature.duplicate(),
                        };
                        Ok(Extern::Func(Rc::new(Func::new_compiled(ty, code))))
                    },
                    None => Err(Error::UnsupportedValueKind),
                }
            },
            ExportDescriptor::Table { element, minimum, maximum } => {
                let element = match element {
                    TableElement::Func => Some(ValType::FuncRef),
                    TableElement::Val(t) => ValType::from_native(*t),
                };
                match element {
                    Some(el) => {
                        let max = match maximum {
                            Some(m) => *m,
                            None => u32::MAX,
                        };
                        let ty = TableType::new(el, Limits::new(*minimum, max));
                        Ok(Extern::Table(Rc::new(Table::new(ty))))
                    },
                    None => Err(Error::UnsupportedValueKind),
                }
            },
            ExportDescriptor::Memory { minimum, maximum } => {
                let ty = MemoryType::from_native_memory(*minimum, *maximum);
                Ok(Extern::Memory(Rc::new(Memory::new(ty))))
            },
            ExportDescriptor::Global { ty, mutable, initializer } => {
                match GlobalType::from_native_global(*ty, *mutable) {
                    Some(gt) => {
                        let val = match initializer {
                            GlobalInit::I32Const(i) => Val::I32(*i),
                            GlobalInit::I64Const(i) => Val::I64(*i),
                            _ => {
                                return Err(Error::UnsupportedInitializer);
                            },
                        };
                        Ok(Extern::Global(Rc::new(Global::new(gt, val))))
                    },
                    None => Err(Error::UnsupportedValueKind),
                }
            },
            ExportDescriptor::Unknown => Err(Error::UnsupportedExportKind),
        }
    }
}

} // verus!
