use wasmtime_api::{
    pack_arguments, unpack_results, AnyRef, Callable, CompiledCode, Error, Func, FuncType,
    InvokeOutcome, NativeSignature, Trap, Val, ValType,
};
use std::rc::Rc;

fn gcd(mut a: i32, mut b: i32) -> i32 {
    while b != 0 {
        let t = a % b;
        a = b;
        b = t;
    }
    a
}

fn gcd_func() -> Func {
    let ty = FuncType::new(vec![ValType::I32, ValType::I32], vec![ValType::I32]);
    let signature = ty.to_native_signature().unwrap();
    Func::new_compiled(ty, CompiledCode { context: 0, address: 0x1000, vmctx: 0x2000, signature })
}

/// Stands in for the compiled body of `gcd`: reads its two arguments from
/// the buffer and writes its result over the first slot.
fn run_gcd_code(mut buffer: Vec<u64>) -> InvokeOutcome {
    let a = buffer[0] as u32 as i32;
    let b = buffer[1] as u32 as i32;
    buffer[0] = gcd(a, b) as u32 as u64;
    InvokeOutcome::Completed(buffer)
}

fn call_gcd(a: i32, b: i32) -> Vec<i32> {
    let f = gcd_func();
    let buffer = f.prepare_call(&[Val::from(a), Val::from(b)]).unwrap();
    let results = f.finish_call(run_gcd_code(buffer)).unwrap();
    results.iter().map(|v| v.to_i32().unwrap()).collect()
}

#[test]
fn gcd_through_the_bridge() {
    assert_eq!(call_gcd(6, 27), vec![3]);
    assert_eq!(call_gcd(0, 5), vec![5]);
    assert_eq!(call_gcd(17, 0), vec![17]);
}

struct GcdHost;

impl Callable for GcdHost {
    fn call(&self, params: &[Val], results: &mut Vec<Val>) -> Result<(), Trap> {
        let a = params[0].to_i32().ok_or(Trap)?;
        let b = params[1].to_i32().ok_or(Trap)?;
        results[0] = Val::from(gcd(a, b));
        Ok(())
    }
}

struct AlwaysTraps;

impl Callable for AlwaysTraps {
    fn call(&self, _params: &[Val], _results: &mut Vec<Val>) -> Result<(), Trap> {
        Err(Trap)
    }
}

#[test]
fn host_callable_results_have_the_declared_arity() {
    let f = gcd_func();
    let out = f.call(&GcdHost, &[Val::from(6), Val::from(27)]).unwrap();
    assert_eq!(out.len(), f.result_arity());
    assert_eq!(out[0].to_i32(), Some(3));
    assert_eq!(f.call(&AlwaysTraps, &[Val::from(1), Val::from(2)]).unwrap_err(), Trap);
}

#[test]
fn calling_twice_gives_the_same_results() {
    let first = call_gcd(48, 18);
    let second = call_gcd(48, 18);
    assert_eq!(first, vec![6]);
    assert_eq!(first, second);
}

#[test]
fn buffer_has_a_slot_per_parameter_or_result() {
    let ty = FuncType::new(vec![ValType::I32], vec![ValType::I64, ValType::I64, ValType::I32]);
    let buffer = pack_arguments(&ty, &[Val::from(-1i32)]).unwrap();
    assert_eq!(buffer, vec![0xFFFF_FFFF, 0, 0]);
    let ty = FuncType::new(vec![ValType::I64, ValType::F64], vec![]);
    let buffer =
        pack_arguments(&ty, &[Val::from(-2i64), Val::from_f64_bits(0x4000_0000_0000_0000)]).unwrap();
    assert_eq!(buffer, vec![0xFFFF_FFFF_FFFF_FFFE, 0x4000_0000_0000_0000]);
}

#[test]
fn reference_arguments_are_refused() {
    let ty = FuncType::new(vec![ValType::AnyRef], vec![]);
    let err = pack_arguments(&ty, &[Val::default()]).unwrap_err();
    assert!(matches!(err, Error::UnsupportedValueKind));
    let err = pack_arguments(&ty, &[Val::AnyRef(Rc::new(AnyRef::null()))]).unwrap_err();
    assert!(matches!(err, Error::UnsupportedValueKind));
}

#[test]
fn results_are_read_by_declared_kind() {
    let ty = FuncType::new(vec![], vec![ValType::I32, ValType::I64, ValType::F32]);
    let out = unpack_results(&ty, &[0x1_FFFF_FFFF, u64::MAX, 0x3f80_0000]).unwrap();
    assert_eq!(out[0].to_i32(), Some(-1));
    assert_eq!(out[1].to_i64(), Some(-1));
    assert_eq!(out[2].to_f32_bits(), Some(0x3f80_0000));
    let refs = FuncType::new(vec![], vec![ValType::FuncRef]);
    assert!(matches!(unpack_results(&refs, &[0]), Err(Error::UnsupportedValueKind)));
}

#[test]
fn zero_results_give_an_empty_sequence() {
    let ty = FuncType::new(vec![ValType::I32], vec![]);
    let f = Func::new_compiled(
        ty,
        CompiledCode {
            context: 1,
            address: 0,
            vmctx: 0,
            signature: NativeSignature { params: vec![], results: vec![] },
        },
    );
    let buffer = f.prepare_call(&[Val::from(7)]).unwrap();
    assert_eq!(buffer.len(), 1);
    let out = f.finish_call(InvokeOutcome::Completed(buffer)).unwrap();
    assert!(out.is_empty());
}

#[test]
fn a_trap_returns_no_results() {
    let f = gcd_func();
    let r = f.finish_call(InvokeOutcome::Trapped);
    assert!(matches!(r, Err(Error::Trap(Trap))));
}

#[test]
fn trampoline_failure_is_a_setup_error() {
    let f = gcd_func();
    let r = f.finish_call(InvokeOutcome::SetupFailed);
    assert!(matches!(r, Err(Error::TrampolineSetup)));
}

#[test]
fn value_conversions_never_reinterpret() {
    let v = Val::from(5i64);
    assert_eq!(v.ty(), ValType::I64);
    assert_eq!(v.to_i64(), Some(5));
    assert_eq!(v.to_i32(), None);
    assert_eq!(v.to_f64_bits(), None);
    assert_eq!(Val::from_f32_bits(7).to_f32_bits(), Some(7));
    assert_eq!(Val::default().ty(), ValType::AnyRef);
}

#[test]
fn marshal_round_trip() {
    for v in [Val::from(i32::MIN), Val::from(-1i32), Val::from(i64::MIN), Val::from_f32_bits(0x7fc0_0001), Val::from_f64_bits(u64::MAX)] {
        let slot = v.marshal().unwrap();
        let back = Val::unmarshal(slot, v.ty()).unwrap();
        assert_eq!(format!("{:?}", back), format!("{:?}", v));
    }
    assert_eq!(Val::from(-1i32).marshal(), Some(0xFFFF_FFFF));
    assert!(Val::unmarshal(0, ValType::AnyRef).is_none());
}

struct WrongKind;

impl Callable for WrongKind {
    fn call(&self, _params: &[Val], results: &mut Vec<Val>) -> Result<(), Trap> {
        results[0] = Val::from(1i64);
        Ok(())
    }
}

struct LeavesDefaults;

impl Callable for LeavesDefaults {
    fn call(&self, _params: &[Val], _results: &mut Vec<Val>) -> Result<(), Trap> {
        Ok(())
    }
}

#[test]
fn host_results_come_back_as_the_callable_left_them() {
    let f = gcd_func();
    let out = f.call(&WrongKind, &[Val::from(1), Val::from(2)]).unwrap();
    assert_eq!(out[0].to_i64(), Some(1));
    let out = f.call(&LeavesDefaults, &[Val::from(1), Val::from(2)]).unwrap();
    assert_eq!(out.len(), 1);
    assert_eq!(out[0].ty(), ValType::AnyRef);
}

#[test]
fn host_call_with_no_results_is_empty() {
    let f = Func::new(FuncType::new(vec![ValType::I32], vec![]));
    let out = f.call(&LeavesDefaults, &[Val::from(1)]).unwrap();
    assert!(out.is_empty());
    assert_eq!(f.call(&AlwaysTraps, &[Val::from(1)]).unwrap_err(), Trap);
}
