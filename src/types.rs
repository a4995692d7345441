use vstd::prelude::*;

verus! {

/// Whether a global can be written after instantiation.
#[derive(Debug, Clone, Copy, PartialEq, Eq, Structural)]
pub enum Mutability {
    Const,
    Var,
}

/// Size bounds of a memory or a table, in pages or elements.
#[derive(Debug, Clone, Copy, PartialEq, Eq, Structural)]
pub struct Limits {
    pub min: u32,
    pub max: u32,
}

impl Limits {
    pub fn new(min: u32, max: u32) -> (r: Limits)
        ensures
            r.min == min,
            r.max == max,
    {
        Limits { min, max }
    }

    /// Limits with the given minimum and no maximum beyond the 32-bit range.
    pub fn at_least(min: u32) -> (r: Limits)
        ensures
            r.min == min,
            r.max == u32::MAX,
    {
        Limits { min, max: u32::MAX }
    }

    /// A value with limits `self` may stand where limits `expected` are declared.
    pub open spec fn spec_satisfies(self, expected: Limits) -> bool {
        self.min >= expected.min && self.max <= expected.max
    }

    pub fn satisfies(&self, expected: &Limits) -> (r: bool)
        ensures
            r == self.spec_satisfies(*expected),
    {
        self.min >= expected.min && self.max <= expected.max
    }
}

/// The kinds of value that cross the host/guest boundary.
#[derive(Debug, Clone, Copy, PartialEq, Eq, Structural)]
pub enum ValType {
    I32,
    I64,
    F32,
    F64,
    AnyRef,
    FuncRef,
}

impl ValType {
    pub open spec fn spec_is_num(self) -> bool {
        self is I32 || self is I64 || self is F32 || self is F64
    }

    pub open spec fn spec_is_ref(self) -> bool {
        self is AnyRef || self is FuncRef
    }

    pub fn is_num(&self) -> (r: bool)
        ensures
            r == self.spec_is_num(),
    {
        match self {
            ValType::I32 | ValType::I64 | ValType::F32 | ValType::F64 => true,
            _ => false,
        }
    }

    pub fn is_ref(&self) -> (r: bool)
        ensures
            r == self.spec_is_ref(),
    {
        match self {
            ValType::AnyRef | ValType::FuncRef => true,
            _ => false,
        }
    }

    /// The machine type that carries a numeric kind; reference kinds have none.
    pub open spec fn spec_native(self) -> Option<NativeType> {
        match self {
            ValType::I32 => Some(NativeType::I32),
            ValType::I64 => Some(NativeType::I64),
            ValType::F32 => Some(NativeType::F32),
            ValType::F64 => Some(NativeType::F64),
            _ => None,
        }
    }

    /// The value kind carried by a machine type, if there is one.
    pub open spec fn spec_from_native(t: NativeType) -> Option<ValType> {
        match t {
            NativeType::I32 => Some(ValType::I32),
            NativeType::I64 => Some(ValType::I64),
            NativeType::F32 => Some(ValType::F32),
            NativeType::F64 => Some(ValType::F64),
            _ => None,
        }
    }

    pub fn to_native(&self) -> (r: Option<NativeType>)
        ensures
            r == self.spec_native(),
    {
        match self {
            ValType::I32 => Some(NativeType::I32),
            ValType::I64 => Some(NativeType::I64),
            ValType::F32 => Some(NativeType::F32),
            ValType::F64 => Some(NativeType::F64),
            _ => None,
        }
    }

    pub fn from_native(t: NativeType) -> (r: Option<ValType>)
        ensures
            r == Self::spec_from_native(t),
    {
        match t {
            NativeType::I32 => Some(ValType::I32),
            NativeType::I64 => Some(ValType::I64),
            NativeType::F32 => Some(ValType::F32),
            NativeType::F64 => Some(ValType::F64),
            _ => None,
        }
    }
}

/// Machine-level types that appear in a compiled function's signature.
#[derive(Debug, Clone, Copy, PartialEq, Eq, Structural)]
pub enum NativeType {
    I8,
    I16,
    I32,
    I64,
    F32,
    F64,
    Bool,
    Vector,
}

/// What a parameter of a compiled signature is for.
#[derive(Debug, Clone, Copy, PartialEq, Eq, Structural)]
pub enum ParamPurpose {
    /// An ordinary wasm-level argument or result.
    Normal,
    /// The execution-context pointer handed to every compiled function.
    VMContext,
    /// Any other special-purpose parameter (stack limit, struct return, ...).
    Special,
}

#[derive(Debug, Clone, Copy, PartialEq, Eq, Structural)]
pub struct AbiParam {
    pub value_type: NativeType,
    pub purpose: ParamPurpose,
}

/// The native signature of a compiled function.
#[derive(Debug, Clone)]
pub struct NativeSignature {
    pub params: Vec<AbiParam>,
    pub results: Vec<AbiParam>,
}

impl NativeSignature {
    /// A copy with the same parameters and results.
    pub fn duplicate(&self) -> (r: NativeSignature)
        ensures
            r.params@ == self.params@,
            r.results@ == self.results@,
    {
        NativeSignature { params: copy_abi(self.params.as_slice()), results: copy_abi(self.results.as_slice()) }
    }
}

fn copy_abi(s: &[AbiParam]) -> (r: Vec<AbiParam>)
    ensures
        r@ == s@,
{
    let mut r: Vec<AbiParam> = Vec::new();
    let mut i: usize = 0;
    while i < s.len()
        invariant
            i <= s@.len(),
            r@ == s@.take(i as int),
        decreases s@.len() - i,
    {
        r.push(s[i]);
        i = i + 1;
        assert(r@ =~= s@.take(i as int));
    }
    assert(s@.take(i as int) =~= s@);
    r
}


/// Parameter kinds read off a native parameter list: entries other than
/// `Normal` are skipped, and a `Normal` entry whose machine type carries no
/// value kind makes the whole list unrepresentable.
pub open spec fn spec_params_from_native(s: Seq<AbiParam>) -> Option<Seq<ValType>>
    decreases s.len(),
{
    if s.len() == 0 {
        Some(Seq::empty())
    } else {
        match spec_params_from_native(s.drop_last()) {
            None => None,
            Some(v) => {
                let last = s.last();
                if last.purpose is Normal {
                    match ValType::spec_from_native(last.value_type) {
                        Some(t) => Some(v.push(t)),
                        None => None,
                    }
                } else {
                    Some(v)
                }
            },
        }
    }
}

/// Result kinds read off a native return list: every entry must be `Normal`
/// and carry a value kind.
pub open spec fn spec_results_from_native(s: Seq<AbiParam>) -> Option<Seq<ValType>>
    decreases s.len(),
{
    if s.len() == 0 {
        Some(Seq::empty())
    } else {
        match spec_results_from_native(s.drop_last()) {
            None => None,
            Some(v) => {
                let last = s.last();
                if last.purpose is Normal {
                    match ValType::spec_from_native(last.value_type) {
                        Some(t) => Some(v.push(t)),
                        None => None,
                    }
                } else {
                    None
                }
            },
        }
    }
}

/// The native parameter that carries a numeric value kind.
pub open spec fn spec_abi_of(t: ValType) -> AbiParam {
    AbiParam { value_type: t.spec_native().unwrap(), purpose: ParamPurpose::Normal }
}

pub open spec fn spec_abi_seq(s: Seq<ValType>) -> Seq<AbiParam> {
    s.map_values(|t: ValType| spec_abi_of(t))
}

pub open spec fn all_num(s: Seq<ValType>) -> bool {
    forall|i: int| 0 <= i < s.len() ==> (#[trigger] s[i]).spec_is_num()
}

/// The execution-context parameter that leads every compiled signature.
pub open spec fn spec_vmctx_param() -> AbiParam {
    AbiParam { value_type: NativeType::I64, purpose: ParamPurpose::VMContext }
}

/// The signature of a function: ordered parameter and result kinds.
#[derive(Debug, Clone)]
pub struct FuncType {
    params: Vec<ValType>,
    results: Vec<ValType>,
}

impl FuncType {
    pub closed spec fn spec_params(&self) -> Seq<ValType> {
        self.params@
    }

    pub closed spec fn spec_results(&self) -> Seq<ValType> {
        self.results@
    }

    pub fn new(params: Vec<ValType>, results: Vec<ValType>) -> (r: FuncType)
        ensures
            r.spec_params() == params@,
            r.spec_results() == results@,
    {
        FuncType { params, results }
    }

    /// A copy of this type, with the same parameter and result kinds.
    pub fn duplicate(&self) -> (r: FuncType)
        ensures
            r.spec_params() == self.spec_params(),
            r.spec_results() == self.spec_results(),
    {
        FuncType { params: copy_kinds(self.params.as_slice()), results: copy_kinds(self.results.as_slice()) }
    }

    pub fn params(&self) -> (r: &[ValType])
        ensures
            r@ == self.spec_params(),
    {
        self.params.as_slice()
    }

    pub fn results(&self) -> (r: &[ValType])
        ensures
            r@ == self.spec_results(),
    {
        self.results.as_slice()
    }

    /// Reads the wasm-level signature off a compiled function's native
    /// signature. Fails when a parameter or result has no value kind, or when
    /// a result is not an ordinary one.
    pub fn from_native_signature(sig: &NativeSignature) -> (r: Option<FuncType>)
        ensures
            match (spec_params_from_native(sig.params@), spec_results_from_native(sig.results@)) {
                (Some(p), Some(q)) => r is Some && r->Some_0.spec_params() == p
                    && r->Some_0.spec_results() == q,
                _ => r is None,
            },
    {
        let mut params: Vec<ValType> = Vec::new();
        let mut i: usize = 0;
        while i < sig.params.len()
            invariant
                i <= sig.params@.len(),
                spec_params_from_native(sig.params@.take(i as int)) == Some(params@),
            decreases sig.params@.len() - i,
        {
            let p = sig.params[i];
            proof {
                assert(sig.params@.take(i + 1).drop_last() =~= sig.params@.take(i as int));
            }
            if p.purpose == ParamPurpose::Normal {
                match ValType::from_native(p.value_type) {
                    Some(t) => params.push(t),
                    None => {
                        proof { lemma_params_none_extends(sig.params@, i + 1); }
                        return None;
                    },
                }
            }
            i = i + 1;
        }
        assert(sig.params@.take(i as int) =~= sig.params@);
        let mut results: Vec<ValType> = Vec::new();
        let mut j: usize = 0;
        while j < sig.results.len()
            invariant
                j <= sig.results@.len(),
                spec_params_from_native(sig.params@) == Some(params@),
                spec_results_from_native(sig.results@.take(j as int)) == Some(results@),
            decreases sig.results@.len() - j,
        {
            let p = sig.results[j];
            proof {
                assert(sig.results@.take(j + 1).drop_last() =~= sig.results@.take(j as int));
            }
            if p.purpose == ParamPurpose::Normal {
                match ValType::from_native(p.value_type) {
                    Some(t) => results.push(t),
                    None => {
                        proof { lemma_results_none_extends(sig.results@, j + 1); }
                        return None;
                    },
                }
            } else {
                proof { lemma_results_none_extends(sig.results@, j + 1); }
                return None;
            }
            j = j + 1;
        }
        assert(sig.results@.take(j as int) =~= sig.results@);
        Some(FuncType { params, results })
    }

    /// The native signature under which a function of this type is compiled:
    /// the execution context first, then one native parameter per wasm one.
    /// Reference kinds have no native form.
    pub open spec fn spec_native_signature(&self) -> (Seq<AbiParam>, Seq<AbiParam>) {
        (seq![spec_vmctx_param()] + spec_abi_seq(self.spec_params()), spec_abi_seq(self.spec_results()))
    }

    pub fn to_native_signature(&self) -> (r: Option<NativeSignature>)
        ensures
            all_num(self.spec_params()) && all_num(self.spec_results()) ==> r is Some
                && (r->Some_0.params@, r->Some_0.results@) == self.spec_native_signature(),
            !(all_num(self.spec_params()) && all_num(self.spec_results())) ==> r is None,
    {
        let mut params: Vec<AbiParam> = Vec::new();
        params.push(AbiParam { value_type: NativeType::I64, purpose: ParamPurpose::VMContext });
        let mut i: usize = 0;
        while i < self.params.len()
            invariant
                i <= self.params@.len(),
                all_num(self.params@.take(i as int)),
                params@ == seq![spec_vmctx_param()] + spec_abi_seq(self.params@.take(i as int)),
            decreases self.params@.len() - i,
        {
            match self.params[i].to_native() {
                Some(t) => {
                    params.push(AbiParam { value_type: t, purpose: ParamPurpose::Normal });
                },
                None => return None,
            }
            i = i + 1;
            assert(params@ =~= seq![spec_vmctx_param()] + spec_abi_seq(self.params@.take(i as int)));
        }
        assert(self.params@.take(i as int) =~= self.params@);
        let mut rets: Vec<AbiParam> = Vec::new();
        let mut j: usize = 0;
        while j < self.results.len()
            invariant
                j <= self.results@.len(),
                all_num(self.params@),
                params@ == seq![spec_vmctx_param()] + spec_abi_seq(self.params@),
                all_num(self.results@.take(j as int)),
                rets@ == spec_abi_seq(self.results@.take(j as int)),
            decreases self.results@.len() - j,
        {
            match self.results[j].to_native() {
                Some(t) => {
                    rets.push(AbiParam { value_type: t, purpose: ParamPurpose::Normal });
                },
                None => return None,
            }
            j = j + 1;
            assert(rets@ =~= spec_abi_seq(self.results@.take(j as int)));
        }
        assert(self.results@.take(j as int) =~= self.results@);
        Some(NativeSignature { params, results: rets })
    }
}

proof fn lemma_params_none_extends(s: Seq<AbiParam>, n: int)
    requires
        0 <= n <= s.len(),
        spec_params_from_native(s.take(n)) is None,
    ensures
        spec_params_from_native(s) is None,
    decreases s.len() - n,
{
    if n < s.len() {
        assert(s.take(n + 1).drop_last() =~= s.take(n));
        lemma_params_none_extends(s, n + 1);
    } else {
        assert(s.take(n) =~= s);
    }
}

proof fn lemma_results_none_extends(s: Seq<AbiParam>, n: int)
    requires
        0 <= n <= s.len(),
        spec_results_from_native(s.take(n)) is None,
    ensures
        spec_results_from_native(s) is None,
    decreases s.len() - n,
{
    if n < s.len() {
        assert(s.take(n + 1).drop_last() =~= s.take(n));
        lemma_results_none_extends(s, n + 1);
    } else {
        assert(s.take(n) =~= s);
    }
}


/// Every numeric signature survives a trip to its native form and back:
/// parameter and result kinds keep their number and their order.
pub proof fn lemma_signature_round_trip(ft: FuncType)
    requires
        all_num(ft.spec_params()),
        all_num(ft.spec_results()),
    ensures
        spec_params_from_native(ft.spec_native_signature().0) == Some(ft.spec_params()),
        spec_results_from_native(ft.spec_native_signature().1) == Some(ft.spec_results()),
{
    let p = ft.spec_params();
    lemma_params_of_abi_seq(seq![spec_vmctx_param()], p);
    assert(spec_params_from_native(seq![spec_vmctx_param()].drop_last()) == Some(Seq::<ValType>::empty())) by {
        assert(seq![spec_vmctx_param()].drop_last() =~= Seq::<AbiParam>::empty());
    }
    lemma_results_of_abi_seq(ft.spec_results());
}

proof fn lemma_params_of_abi_seq(prefix: Seq<AbiParam>, s: Seq<ValType>)
    requires
        all_num(s),
        spec_params_from_native(prefix) is Some,
    ensures
        spec_params_from_native(prefix + spec_abi_seq(s))
            == Some(spec_params_from_native(prefix)->Some_0 + s),
    decreases s.len(),
{
    if s.len() == 0 {
        assert(prefix + spec_abi_seq(s) =~= prefix);
        assert(spec_params_from_native(prefix)->Some_0 + s =~= spec_params_from_native(prefix)->Some_0);
    } else {
        let init = s.drop_last();
        assert(all_num(init)) by {
            assert forall|i: int| 0 <= i < init.len() implies (#[trigger] init[i]).spec_is_num() by {
                assert(init[i] == s[i]);
            }
        }
        lemma_params_of_abi_seq(prefix, init);
        let whole = prefix + spec_abi_seq(s);
        assert(whole.drop_last() =~= prefix + spec_abi_seq(init));
        assert(whole.last() == spec_abi_of(s.last()));
        assert(s.last().spec_is_num()) by { assert(s[s.len() - 1].spec_is_num()); }
        assert(spec_params_from_native(prefix)->Some_0 + s
            =~= (spec_params_from_native(prefix)->Some_0 + init).push(s.last()));
    }
}

proof fn lemma_results_of_abi_seq(s: Seq<ValType>)
    requires
        all_num(s),
    ensures
        spec_results_from_native(spec_abi_seq(s)) == Some(s),
    decreases s.len(),
{
    if s.len() == 0 {
        assert(spec_abi_seq(s) =~= Seq::<AbiParam>::empty());
    } else {
        let init = s.drop_last();
        assert(all_num(init)) by {
            assert forall|i: int| 0 <= i < init.len() implies (#[trigger] init[i]).spec_is_num() by {
                assert(init[i] == s[i]);
            }
        }
        lemma_results_of_abi_seq(init);
        assert(spec_abi_seq(s).drop_last() =~= spec_abi_seq(init));
        assert(s.last().spec_is_num()) by { assert(s[s.len() - 1].spec_is_num()); }
        assert(s =~= init.push(s.last()));
    }
}


/// The type of a global: its value kind and whether it can be written.
#[derive(Debug, Clone, Copy, PartialEq, Eq, Structural)]
pub struct GlobalType {
    content: ValType,
    mutability: Mutability,
}

impl GlobalType {
    pub closed spec fn spec_content(&self) -> ValType {
        self.content
    }

    pub closed spec fn spec_mutability(&self) -> Mutability {
        self.mutability
    }

    pub fn new(content: ValType, mutability: Mutability) -> (r: GlobalType)
        ensures
            r.spec_content() == content,
            r.spec_mutability() == mutability,
    {
        GlobalType { content, mutability }
    }

    pub fn content(&self) -> (r: &ValType)
        ensures
            *r == self.spec_content(),
    {
        &self.content
    }

    pub fn mutability(&self) -> (r: Mutability)
        ensures
            r == self.spec_mutability(),
    {
        self.mutability
    }

    /// The type of a compiled global of machine type `ty`; `None` when that
    /// machine type carries no value kind.
    pub fn from_native_global(ty: NativeType, mutable: bool) -> (r: Option<GlobalType>)
        ensures
            match ValType::spec_from_native(ty) {
                Some(t) => r is Some && r->Some_0.spec_content() == t
                    && r->Some_0.spec_mutability() == if mutable {
                    Mutability::Var
                } else {
                    Mutability::Const
                },
                None => r is None,
            },
    {
        match ValType::from_native(ty) {
            Some(t) => {
                let mutability = if mutable { Mutability::Var } else { Mutability::Const };
                Some(GlobalType::new(t, mutability))
            },
            None => None,
        }
    }
}

/// The type of a table: its element kind and size limits.
#[derive(Debug, Clone, Copy, PartialEq, Eq, Structural)]
pub struct TableType {
    element: ValType,
    limits: Limits,
}

impl TableType {
    pub closed spec fn spec_element(&self) -> ValType {
        self.element
    }

    pub closed spec fn spec_limits(&self) -> Limits {
        self.limits
    }

    pub fn new(element: ValType, limits: Limits) -> (r: TableType)
        ensures
            r.spec_element() == element,
            r.spec_limits() == limits,
    {
        TableType { element, limits }
    }

    pub fn element(&self) -> (r: &ValType)
        ensures
            *r == self.spec_element(),
    {
        &self.element
    }

    pub fn limits(&self) -> (r: &Limits)
        ensures
            *r == self.spec_limits(),
    {
        &self.limits
    }
}

/// The type of a linear memory: its size limits in pages.
#[derive(Debug, Clone, Copy, PartialEq, Eq, Structural)]
pub struct MemoryType {
    limits: Limits,
}

impl MemoryType {
    pub closed spec fn spec_limits(&self) -> Limits {
        self.limits
    }

    pub fn new(limits: Limits) -> (r: MemoryType)
        ensures
            r.spec_limits() == limits,
    {
        MemoryType { limits }
    }

    pub fn limits(&self) -> (r: &Limits)
        ensures
            *r == self.spec_limits(),
    {
        &self.limits
    }

    /// The type of a compiled memory; an absent maximum means no bound
    /// below the 32-bit range.
    pub fn from_native_memory(minimum: u32, maximum: Option<u32>) -> (r: MemoryType)
        ensures
            r.spec_limits().min == minimum,
            r.spec_limits().max == match maximum {
                Some(m) => m,
                None => u32::MAX,
            },
    {
        let max = match maximum {
            Some(m) => m,
            None => u32::MAX,
        };
        MemoryType::new(Limits::new(minimum, max))
    }
}

/// The type of an entity that can be imported or exported.
#[derive(Debug, Clone)]
pub enum ExternType {
    ExternFunc(FuncType),
    ExternGlobal(GlobalType),
    ExternTable(TableType),
    ExternMemory(MemoryType),
}

impl ExternType {
    pub fn func(&self) -> (r: &FuncType)
        requires
            self is ExternFunc,
        ensures
            *r == self->ExternFunc_0,
    {
        match self {
            ExternType::ExternFunc(func) => func,
            _ => unreached(),
        }
    }

    pub fn global(&self) -> (r: &GlobalType)
        requires
            self is ExternGlobal,
        ensures
            *r == self->ExternGlobal_0,
    {
        match self {
            ExternType::ExternGlobal(global) => global,
            _ => unreached(),
        }
    }

    pub fn table(&self) -> (r: &TableType)
        requires
            self is ExternTable,
        ensures
            *r == self->ExternTable_0,
    {
        match self {
            ExternType::ExternTable(table) => table,
            _ => unreached(),
        }
    }

    pub fn memory(&self) -> (r: &MemoryType)
        requires
            self is ExternMemory,
        ensures
            *r == self->ExternMemory_0,
    {
        match self {
            ExternType::ExternMemory(memory) => memory,
            _ => unreached(),
        }
    }

    /// An entity of type `self` may be bound where `expected` is declared:
    /// same kind; functions and globals of exactly the declared type; tables
    /// and memories within the declared limits.
    pub open spec fn spec_matches(self, expected: ExternType) -> bool {
        match (self, expected) {
            (ExternType::ExternFunc(a), ExternType::ExternFunc(b)) =>
                a.spec_params() == b.spec_params() && a.spec_results() == b.spec_results(),
            (ExternType::ExternGlobal(a), ExternType::ExternGlobal(b)) => a.spec_content()
                == b.spec_content() && a.spec_mutability() == b.spec_mutability(),
            (ExternType::ExternTable(a), ExternType::ExternTable(b)) =>
                a.spec_element() == b.spec_element()
                    && a.spec_limits().spec_satisfies(b.spec_limits()),
            (ExternType::ExternMemory(a), ExternType::ExternMemory(b)) =>
                a.spec_limits().spec_satisfies(b.spec_limits()),
            _ => false,
        }
    }

    pub fn matches(&self, expected: &ExternType) -> (r: bool)
        ensures
            r == self.spec_matches(*expected),
    {
        match (self, expected) {
            (ExternType::ExternFunc(a), ExternType::ExternFunc(b)) =>
                same_kinds(a.params(), b.params()) && same_kinds(a.results(), b.results()),
            (ExternType::ExternGlobal(a), ExternType::ExternGlobal(b)) =>
                a.content == b.content && a.mutability == b.mutability,
            (ExternType::ExternTable(a), ExternType::ExternTable(b)) =>
                a.element == b.element && a.limits.satisfies(&b.limits),
            (ExternType::ExternMemory(a), ExternType::ExternMemory(b)) =>
                a.limits.satisfies(&b.limits),
            _ => false,
        }
    }
}

fn copy_kinds(s: &[ValType]) -> (r: Vec<ValType>)
    ensures
        r@ == s@,
{
    let mut r: Vec<ValType> = Vec::new();
    let mut i: usize = 0;
    while i < s.len()
        invariant
            i <= s@.len(),
            r@ == s@.take(i as int),
        decreases s@.len() - i,
    {
        r.push(s[i]);
        i = i + 1;
        assert(r@ =~= s@.take(i as int));
    }
    assert(s@.take(i as int) =~= s@);
    r
}

/// Whether two lists of value kinds are equal.
pub fn same_kinds(a: &[ValType], b: &[ValType]) -> (r: bool)
    ensures
        r == (a@ == b@),
{
    if a.len() != b.len() {
        return false;
    }
    let mut i: usize = 0;
    while i < a.len()
        invariant
            a@.len() == b@.len(),
            i <= a@.len(),
            forall|k: int| 0 <= k < i ==> a@[k] == b@[k],
        decreases a@.len() - i,
    {
        if a[i] != b[i] {
            return false;
        }
        i = i + 1;
    }
    assert(a@ =~= b@);
    true
}

/// A name of a module namespace or of an import or export field.
#[derive(Debug, Clone)]
pub struct Name(String);

impl View for Name {
    type V = Seq<char>;

    closed spec fn view(&self) -> Seq<char> {
        self.0@
    }
}

impl From<String> for Name {
    fn from(s: String) -> (r: Name) {
        Name(s)
    }
}

impl vstd::std_specs::convert::FromSpecImpl<String> for Name {
    open spec fn obeys_from_spec() -> bool {
        true
    }

    closed spec fn from_spec(v: String) -> Name {
        Name(v)
    }
}

impl Name {
    pub fn new(s: String) -> (r: Name)
        ensures
            r@ == s@,
    {
        Name(s)
    }

    pub fn as_string(&self) -> (r: &String)
        ensures
            r@ == self@,
    {
        &self.0
    }

    pub fn as_str(&self) -> (r: &str)
        ensures
            r@ == self@,
    {
        self.0.as_str()
    }

    pub fn to_string(&self) -> (r: String)
        ensures
            r@ == self@,
    {
        self.0.clone()
    }

    pub fn eq_name(&self, other: &Name) -> (r: bool)
        ensures
            r == (self@ == other@),
    {
        self.0 == other.0
    }
}

/// A declared import: the namespace it comes from, its field name and type.
#[derive(Debug, Clone)]
pub struct ImportType {
    module: Name,
    name: Name,
    ty: ExternType,
}

impl ImportType {
    pub closed spec fn spec_module(&self) -> Seq<char> {
        self.module@
    }

    pub closed spec fn spec_name(&self) -> Seq<char> {
        self.name@
    }

    pub closed spec fn spec_type(&self) -> ExternType {
        self.ty
    }

    pub fn new(module: Name, name: Name, ty: ExternType) -> (r: ImportType)
        ensures
            r.spec_module() == module@,
            r.spec_name() == name@,
            r.spec_type() == ty,
    {
        ImportType { module, name, ty }
    }

    pub fn module(&self) -> (r: &Name)
        ensures
            r@ == self.spec_module(),
    {
        &self.module
    }

    pub fn name(&self) -> (r: &Name)
        ensures
            r@ == self.spec_name(),
    {
        &self.name
    }

    pub fn ty(&self) -> (r: &ExternType)
        ensures
            *r == self.spec_type(),
    {
        &self.ty
    }
}

/// A declared export: its name and type.
#[derive(Debug, Clone)]
pub struct ExportType {
    name: Name,
    ty: ExternType,
}

impl ExportType {
    pub closed spec fn spec_name(&self) -> Seq<char> {
        self.name@
    }

    pub closed spec fn spec_type(&self) -> ExternType {
        self.ty
    }

    pub fn new(name: Name, ty: ExternType) -> (r: ExportType)
        ensures
            r.spec_name() == name@,
            r.spec_type() == ty,
    {
        ExportType { name, ty }
    }

    pub fn name(&self) -> (r: &Name)
        ensures
            r@ == self.spec_name(),
    {
        &self.name
    }

    pub fn ty(&self) -> (r: &ExternType)
        ensures
            *r == self.spec_type(),
    {
        &self.ty
    }
}

} // verus!
