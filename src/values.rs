use crate::types::ValType;
use std::rc::Rc;
use vstd::prelude::*;

verus! {

/// An opaque host reference; the only one this layer makes is null.
#[derive(Debug, Clone, Copy, PartialEq, Eq, Structural)]
pub struct AnyRef;

impl AnyRef {
    pub fn null() -> (r: AnyRef)
        ensures
            r == AnyRef,
    {
        AnyRef
    }
}

/// An opaque reference to a function, identified by the embedder.
#[derive(Debug, Clone, Copy, PartialEq, Eq, Structural)]
pub struct FuncRef {
    pub id: u64,
}

/// A typed value. Floats are kept as their raw bits so that moving them
/// never canonicalises a NaN; reference kinds are shared cells.
#[derive(Debug, Clone)]
pub enum Val {
    I32(i32),
    I64(i64),
    F32(u32),
    F64(u64),
    AnyRef(Rc<AnyRef>),
    FuncRef(Rc<FuncRef>),
}

pub open spec fn spec_type_of(v: Val) -> ValType {
    match v {
        Val::I32(_) => ValType::I32,
        Val::I64(_) => ValType::I64,
        Val::F32(_) => ValType::F32,
        Val::F64(_) => ValType::F64,
        Val::AnyRef(_) => ValType::AnyRef,
        Val::FuncRef(_) => ValType::FuncRef,
    }
}

/// The native slot that carries a value: the value's bit pattern in the low
/// bits, zero above. Reference kinds have no slot form.
pub open spec fn spec_marshal(v: Val) -> Option<u64> {
    match v {
        Val::I32(x) => Some(x as u32 as u64),
        Val::I64(x) => Some(x as u64),
        Val::F32(b) => Some(b as u64),
        Val::F64(b) => Some(b),
        _ => None,
    }
}

/// The value of kind `t` read from the low bits of a native slot.
pub open spec fn spec_unmarshal(slot: u64, t: ValType) -> Option<Val> {
    match t {
        ValType::I32 => Some(Val::I32(slot as u32 as i32)),
        ValType::I64 => Some(Val::I64(slot as i64)),
        ValType::F32 => Some(Val::F32(slot as u32)),
        ValType::F64 => Some(Val::F64(slot)),
        _ => None,
    }
}

impl Val {
    /// The value used to pre-fill result slots: a null reference.
    pub fn default() -> (r: Val)
        ensures
            r == Val::AnyRef(Rc::new(AnyRef)),
    {
        Val::AnyRef(Rc::new(AnyRef::null()))
    }

    pub fn ty(&self) -> (r: ValType)
        ensures
            r == spec_type_of(*self),
    {
        match self {
            Val::I32(_) => ValType::I32,
            Val::I64(_) => ValType::I64,
            Val::F32(_) => ValType::F32,
            Val::F64(_) => ValType::F64,
            Val::AnyRef(_) => ValType::AnyRef,
            Val::FuncRef(_) => ValType::FuncRef,
        }
    }

    pub fn from_f32_bits(bits: u32) -> (r: Val)
        ensures
            r == Val::F32(bits),
    {
        Val::F32(bits)
    }

    pub fn from_f64_bits(bits: u64) -> (r: Val)
        ensures
            r == Val::F64(bits),
    {
        Val::F64(bits)
    }

    /// The `i32` inside, or `None` for any other kind: no value is ever
    /// reinterpreted as another kind.
    pub fn to_i32(&self) -> (r: Option<i32>)
        ensures
            match *self {
                Val::I32(x) => r == Some(x),
                _ => r is None,
            },
    {
        match self {
            Val::I32(x) => Some(*x),
            _ => None,
        }
    }

    pub fn to_i64(&self) -> (r: Option<i64>)
        ensures
            match *self {
                Val::I64(x) => r == Some(x),
                _ => r is None,
            },
    {
        match self {
            Val::I64(x) => Some(*x),
            _ => None,
        }
    }

    pub fn to_f32_bits(&self) -> (r: Option<u32>)
        ensures
            match *self {
                Val::F32(x) => r == Some(x),
                _ => r is None,
            },
    {
        match self {
            Val::F32(x) => Some(*x),
            _ => None,
        }
    }

    pub fn to_f64_bits(&self) -> (r: Option<u64>)
        ensures
            match *self {
                Val::F64(x) => r == Some(x),
                _ => r is None,
            },
    {
        match self {
            Val::F64(x) => Some(*x),
            _ => None,
        }
    }

    /// Writes the value into a native slot (see `spec_marshal`).
    pub fn marshal(&self) -> (r: Option<u64>)
        ensures
            r == spec_marshal(*self),
    {
        match self {
            Val::I32(x) => Some(*x as u32 as u64),
            Val::I64(x) => Some(*x as u64),
            Val::F32(b) => Some(*b as u64),
            Val::F64(b) => Some(*b),
            _ => None,
        }
    }

    /// Reads a value of kind `t` from a native slot (see `spec_unmarshal`).
    pub fn unmarshal(slot: u64, t: ValType) -> (r: Option<Val>)
        ensures
            r == spec_unmarshal(slot, t),
    {
        match t {
            ValType::I32 => Some(Val::I32(slot as u32 as i32)),
            ValType::I64 => Some(Val::I64(slot as i64)),
            ValType::F32 => Some(Val::F32(slot as u32)),
            ValType::F64 => Some(Val::F64(slot)),
            _ => None,
        }
    }
}

impl From<i32> for Val {
    fn from(v: i32) -> (r: Val) {
        Val::I32(v)
    }
}

impl vstd::std_specs::convert::FromSpecImpl<i32> for Val {
    open spec fn obeys_from_spec() -> bool {
        true
    }

    open spec fn from_spec(v: i32) -> Val {
        Val::I32(v)
    }
}

impl From<i64> for Val {
    fn from(v: i64) -> (r: Val) {
        Val::I64(v)
    }
}

impl vstd::std_specs::convert::FromSpecImpl<i64> for Val {
    open spec fn obeys_from_spec() -> bool {
        true
    }

    open spec fn from_spec(v: i64) -> Val {
        Val::I64(v)
    }
}

/// A numeric value read back from the slot it was written to is the same
/// value, of the same kind.
pub proof fn lemma_marshal_round_trip(v: Val)
    requires
        spec_type_of(v).spec_is_num(),
    ensures
        spec_marshal(v) is Some,
        spec_unmarshal(spec_marshal(v)->Some_0, spec_type_of(v)) == Some(v),
{
    match v {
        Val::I32(x) => {
            assert((x as u32 as u64) as u32 as i32 == x) by (bit_vector);
        },
        Val::I64(x) => {
            assert((x as u64) as i64 == x) by (bit_vector);
        },
        Val::F32(b) => {
            assert((b as u64) as u32 == b) by (bit_vector);
        },
        _ => {},
    }
}

} // verus!
