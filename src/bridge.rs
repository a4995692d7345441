//! The calling-convention bridge: typed values in and out of the raw,
//! word-sized buffer through which compiled code takes its arguments and
//! leaves its results.
use crate::error::{Error, Trap};
use crate::types::{all_num, FuncType, ValType};
use crate::values::{lemma_marshal_round_trip, spec_marshal, spec_type_of, spec_unmarshal, Val};
use vstd::prelude::*;

verus! {

/// Number of slots in the buffer of a call: one per parameter or per result,
/// whichever is more, since results are written over the arguments.
pub open spec fn spec_slot_count(n_params: nat, n_results: nat) -> nat {
    if n_params >= n_results { n_params } else { n_results }
}

/// The argument buffer: each parameter in its slot, the remaining slots zero.
pub open spec fn spec_arg_buffer(params: Seq<Val>, n_results: nat) -> Seq<u64> {
    Seq::new(
        spec_slot_count(params.len(), n_results),
        |i: int| if i < params.len() { spec_marshal(params[i])->Some_0 } else { 0u64 },
    )
}

pub open spec fn all_marshal(params: Seq<Val>) -> bool {
    forall|i: int| 0 <= i < params.len() ==> (#[trigger] spec_marshal(params[i])) is Some
}

/// The results read from a buffer, one per declared result kind.
pub open spec fn spec_results_of(buffer: Seq<u64>, kinds: Seq<ValType>) -> Seq<Val> {
    Seq::new(kinds.len(), |i: int| spec_unmarshal(buffer[i], kinds[i])->Some_0)
}

/// What the compiled code did with a prepared buffer.
#[derive(Debug)]
pub enum InvokeOutcome {
    /// It returned normally, leaving its results at the start of the buffer.
    Completed(Vec<u64>),
    /// No trampoline could be produced for the signature.
    SetupFailed,
    /// It trapped.
    Trapped,
}

/// Fills the argument buffer for a call of a function of type `ty`.
pub fn pack_arguments(ty: &FuncType, params: &[Val]) -> (r: Result<Vec<u64>, Error>)
    requires
        params@.len() == ty.spec_params().len(),
    ensures
        all_marshal(params@) ==> r is Ok && r->Ok_0@ == spec_arg_buffer(
            params@,
            ty.spec_results().len(),
        ),
        !all_marshal(params@) ==> r == Err::<Vec<u64>, Error>(Error::UnsupportedValueKind),
{
    let n_results = ty.results().len();
    let n = if params.len() >= n_results { params.len() } else { n_results };
    let mut buffer: Vec<u64> = Vec::new();
    let mut i: usize = 0;
    while i < params.len()
        invariant
            i <= params@.len(),
            n == spec_slot_count(params@.len(), n_results as nat),
            buffer@.len() == i,
            forall|j: int| 0 <= j < i ==> (#[trigger] spec_marshal(params@[j])) is Some,
            forall|j: int| 0 <= j < i ==> buffer@[j] == spec_marshal(params@[j])->Some_0,
        decreases params@.len() - i,
    {
        match params[i].marshal() {
            Some(slot) => buffer.push(slot),
            None => {
                return Err(Error::UnsupportedValueKind);
            },
        }
        i = i + 1;
    }
    while i < n
        invariant
            params@.len() <= i <= n,
            n == spec_slot_count(params@.len(), n_results as nat),
            buffer@.len() == i,
            forall|j: int| 0 <= j < params@.len() ==> buffer@[j] == spec_marshal(params@[j])->Some_0,
            forall|j: int| params@.len() <= j < i ==> buffer@[j] == 0,
        decreases n - i,
    {
        buffer.push(0);
        i = i + 1;
    }
    assert(buffer@ =~= spec_arg_buffer(params@, n_results as nat));
    Ok(buffer)
}

/// Reads the results of a call of a function of type `ty` out of its buffer.
pub fn unpack_results(ty: &FuncType, buffer: &[u64]) -> (r: Result<Vec<Val>, Error>)
    requires
        buffer@.len() >= ty.spec_results().len(),
    ensures
        all_num(ty.spec_results()) ==> r is Ok && r->Ok_0@ == spec_results_of(
            buffer@,
            ty.spec_results(),
        ),
        !all_num(ty.spec_results()) ==> r == Err::<Vec<Val>, Error>(Error::UnsupportedValueKind),
{
    let kinds = ty.results();
    let mut out: Vec<Val> = Vec::new();
    let mut i: usize = 0;
    while i < kinds.len()
        invariant
            kinds@ == ty.spec_results(),
            buffer@.len() >= kinds@.len(),
            i <= kinds@.len(),
            out@.len() == i,
            forall|j: int| 0 <= j < i ==> (#[trigger] kinds@[j]).spec_is_num(),
            forall|j: int| 0 <= j < i ==> out@[j] == spec_unmarshal(buffer@[j], kinds@[j])->Some_0,
        decreases kinds@.len() - i,
    {
        match Val::unmarshal(buffer[i], kinds[i]) {
            Some(v) => out.push(v),
            None => {
                return Err(Error::UnsupportedValueKind);
            },
        }
        i = i + 1;
    }
    assert(out@ =~= spec_results_of(buffer@, kinds@));
    Ok(out)
}

/// Turns what the compiled code did into the outcome of the call: all
/// results, or an error with no results at all.
pub fn finish_call(ty: &FuncType, outcome: InvokeOutcome) -> (r: Result<Vec<Val>, Error>)
    requires
        outcome is Completed ==> outcome->Completed_0@.len() >= ty.spec_results().len(),
    ensures
        outcome is SetupFailed ==> r == Err::<Vec<Val>, Error>(Error::TrampolineSetup),
        outcome is Trapped ==> r == Err::<Vec<Val>, Error>(Error::Trap(Trap)),
        outcome is Completed && all_num(ty.spec_results()) ==> r is Ok && r->Ok_0@
            == spec_results_of(outcome->Completed_0@, ty.spec_results()),
        outcome is Completed && !all_num(ty.spec_results()) ==> r == Err::<Vec<Val>, Error>(
            Error::UnsupportedValueKind,
        ),
        r is Ok ==> r->Ok_0@.len() == ty.spec_results().len(),
{
    match outcome {
        InvokeOutcome::Completed(buffer) => unpack_results(ty, buffer.as_slice()),
        InvokeOutcome::SetupFailed => Err(Error::TrampolineSetup),
        InvokeOutcome::Trapped => Err(Error::Trap(Trap)),
    }
}


/// Numeric arguments packed into a call's buffer and read back under their
/// own kinds come back unchanged: same number, same order, same values.
pub proof fn lemma_bridge_round_trip(params: Seq<Val>, n_results: nat)
    requires
        forall|i: int| 0 <= i < params.len() ==> (#[trigger] spec_type_of(params[i])).spec_is_num(),
    ensures
        all_marshal(params),
        spec_results_of(
            spec_arg_buffer(params, n_results),
            params.map_values(|v: Val| spec_type_of(v)),
        ) == params,
{
    let kinds = params.map_values(|v: Val| spec_type_of(v));
    let buffer = spec_arg_buffer(params, n_results);
    assert forall|i: int| 0 <= i < params.len() implies (#[trigger] spec_marshal(params[i])) is Some
        && spec_unmarshal(buffer[i], kinds[i]) == Some(params[i]) by {
        assert(spec_type_of(params[i]).spec_is_num());
        lemma_marshal_round_trip(params[i]);
    }
    assert(spec_results_of(buffer, kinds) =~= params);
}

} // verus!
