use std::sync::atomic::{AtomicI64, Ordering};
use std::sync::Arc;
use wasm_sandbox::instance::Instance;
use wasm_sandbox::linker::{
    answer_guest, host_arguments, host_result, CapabilityLinker, CapabilitySet,
};
use wasm_sandbox::module::Module;
use wasm_sandbox::runtime::{CompiledUnit, WasmRuntime};
use wasm_sandbox::sandbox::{Sandbox, SandboxError};
use wasm_sandbox::value::{Signature, Value, ValueType};

const USES_DOUBLE: &str = r#"(module
    (import "host" "double" (func $double (param i32) (result i32)))
    (func (export "quadruple") (param i32) (result i32)
        local.get 0
        call $double
        call $double))"#;

const USES_TWO: &str = r#"(module
    (import "host" "note" (func $note (param i64)))
    (import "host" "double" (func $double (param i32) (result i32)))
    (func (export "work") (param i32) (result i32)
        i64.const 11
        call $note
        local.get 0
        call $double))"#;

fn compile(runtime: &WasmRuntime, text: &str) -> CompiledUnit {
    runtime.compile(&Module::from_bytes(text.as_bytes().to_vec())).unwrap()
}

fn unary() -> Signature {
    Signature::new(vec![ValueType::I32], vec![ValueType::I32])
}

fn double(args: Vec<Value>) -> Option<Value> {
    match args.as_slice() {
        [Value::I32(x)] => Some(Value::I32(x.wrapping_mul(2))),
        _ => None,
    }
}

fn linker_reason(outcome: Result<Instance, SandboxError>) -> String {
    match outcome {
        Err(SandboxError::Linker(reason)) => reason,
        other => panic!("expected a linker error, got {:?}", other.map(|_| ())),
    }
}

#[test]
fn registered_host_function_is_called_by_the_guest() {
    let sandbox = Sandbox::new();
    let mut linker = CapabilityLinker::new(sandbox.runtime());
    linker.register("double", unary(), double).unwrap();
    let set = linker.build();
    let unit = compile(sandbox.runtime(), USES_DOUBLE);
    let mut instance = sandbox.instantiate(&unit, &set).unwrap();
    assert_eq!(
        sandbox.execute(&mut instance, "quadruple", &[Value::I32(5)]).unwrap(),
        vec![Value::I32(20)]
    );
}

#[test]
fn host_function_without_result_receives_the_arguments() {
    let sandbox = Sandbox::new();
    let seen = Arc::new(AtomicI64::new(0));
    let sink = seen.clone();
    let mut linker = CapabilityLinker::new(sandbox.runtime());
    linker
        .register("note", Signature::new(vec![ValueType::I64], vec![]), move |args: Vec<Value>| {
            if let [Value::I64(x)] = args.as_slice() {
                sink.store(*x, Ordering::SeqCst);
            }
            None
        })
        .unwrap();
    linker.register("double", unary(), double).unwrap();
    let set = linker.build();
    assert_eq!(set.len(), 2);
    let unit = compile(sandbox.runtime(), USES_TWO);
    let mut instance = sandbox.instantiate(&unit, &set).unwrap();
    assert_eq!(sandbox.execute(&mut instance, "work", &[Value::I32(4)]).unwrap(), vec![Value::I32(8)]);
    assert_eq!(seen.load(Ordering::SeqCst), 11);
}

#[test]
fn one_capability_set_serves_many_instances() {
    let sandbox = Sandbox::new();
    let mut linker = CapabilityLinker::new(sandbox.runtime());
    linker.register("double", unary(), double).unwrap();
    let set = linker.build();
    let unit = compile(sandbox.runtime(), USES_DOUBLE);
    let mut first = sandbox.instantiate(&unit, &set).unwrap();
    let mut second = sandbox.instantiate(&unit, &set).unwrap();
    assert_eq!(sandbox.execute(&mut first, "quadruple", &[Value::I32(1)]).unwrap(), vec![Value::I32(4)]);
    assert_eq!(sandbox.execute(&mut second, "quadruple", &[Value::I32(2)]).unwrap(), vec![Value::I32(8)]);
    assert_eq!(
        sandbox
            .run(&Module::from_bytes(USES_DOUBLE.as_bytes().to_vec()), &set, "quadruple", &[Value::I32(3)])
            .unwrap(),
        vec![Value::I32(12)]
    );
}

#[test]
fn registering_a_name_twice_fails() {
    let runtime = WasmRuntime::new();
    let mut linker = CapabilityLinker::new(&runtime);
    linker.register("double", unary(), double).unwrap();
    match linker.register("double", Signature::new(vec![], vec![]), |_args: Vec<Value>| None) {
        Err(SandboxError::DuplicateCapability(name)) => assert_eq!(name, "double"),
        other => panic!("expected a duplicate capability, got {:?}", other),
    }
    linker.register("Double", unary(), double).unwrap();
    let set = linker.build();
    assert_eq!(set.len(), 2);
    assert!(set.contains("double"));
    assert!(set.contains("Double"));
    assert!(!set.contains("triple"));
    // The first registration is the one that stays.
    let sandbox = Sandbox::with_runtime(runtime);
    let unit = compile(sandbox.runtime(), USES_DOUBLE);
    let mut instance = sandbox.instantiate(&unit, &set).unwrap();
    assert_eq!(
        sandbox.execute(&mut instance, "quadruple", &[Value::I32(5)]).unwrap(),
        vec![Value::I32(20)]
    );
}

#[test]
fn registering_an_unsupported_signature_fails() {
    let runtime = WasmRuntime::new();
    let mut linker = CapabilityLinker::new(&runtime);
    for signature in [
        Signature::new(vec![ValueType::Reference], vec![]),
        Signature::new(vec![ValueType::I32, ValueType::V128], vec![]),
        Signature::new(vec![], vec![ValueType::Reference]),
        Signature::new(vec![], vec![ValueType::I32, ValueType::I32]),
    ] {
        match linker.register("odd", signature, |_args: Vec<Value>| None) {
            Err(SandboxError::Linker(reason)) => assert_eq!(reason, "unsupported signature"),
            other => panic!("expected a linker error, got {:?}", other),
        }
    }
    // A refused registration leaves the name free.
    linker.register("odd", unary(), double).unwrap();
    assert_eq!(linker.build().len(), 1);
}

#[test]
fn empty_set_grants_nothing() {
    let runtime = WasmRuntime::new();
    let set = CapabilitySet::empty(&runtime);
    assert_eq!(set.len(), 0);
    assert!(!set.contains("double"));
    assert!(!set.contains(""));
    let unit = compile(&runtime, USES_DOUBLE);
    assert_eq!(set.first_uncovered(unit.imports()), Some(0));
    assert_eq!(set.first_uncovered(&Vec::new()), None);
}

#[test]
fn instantiate_without_the_import_is_a_linker_error() {
    let sandbox = Sandbox::new();
    let unit = compile(sandbox.runtime(), USES_DOUBLE);
    let nothing = CapabilitySet::empty(sandbox.runtime());
    assert_eq!(
        linker_reason(sandbox.instantiate(&unit, &nothing)),
        "no capability answers the import double"
    );
}

#[test]
fn instantiate_with_some_imports_missing_is_a_linker_error() {
    let sandbox = Sandbox::new();
    let mut linker = CapabilityLinker::new(sandbox.runtime());
    linker.register("double", unary(), double).unwrap();
    let set = linker.build();
    let unit = compile(sandbox.runtime(), USES_TWO);
    assert_eq!(set.first_uncovered(unit.imports()), Some(0));
    assert_eq!(linker_reason(sandbox.instantiate(&unit, &set)), "no capability answers the import note");
}

#[test]
fn instantiate_with_another_signature_is_a_linker_error() {
    let sandbox = Sandbox::new();
    let unit = compile(sandbox.runtime(), USES_DOUBLE);
    for signature in [
        Signature::new(vec![ValueType::I64], vec![ValueType::I32]),
        Signature::new(vec![ValueType::I32], vec![ValueType::I64]),
        Signature::new(vec![ValueType::I32], vec![]),
        Signature::new(vec![ValueType::I32, ValueType::I32], vec![ValueType::I32]),
    ] {
        let mut linker = CapabilityLinker::new(sandbox.runtime());
        linker.register("double", signature, |_args: Vec<Value>| None).unwrap();
        assert_eq!(
            linker_reason(sandbox.instantiate(&unit, &linker.build())),
            "no capability answers the import double"
        );
    }
}

#[test]
fn instantiate_answers_the_host_namespace_only() {
    let sandbox = Sandbox::new();
    let mut linker = CapabilityLinker::new(sandbox.runtime());
    linker.register("double", unary(), double).unwrap();
    let set = linker.build();
    let elsewhere = compile(
        sandbox.runtime(),
        r#"(module (import "env" "double" (func (param i32) (result i32))))"#,
    );
    assert_eq!(
        linker_reason(sandbox.instantiate(&elsewhere, &set)),
        "no capability answers the import double"
    );
    let memory = compile(sandbox.runtime(), r#"(module (import "host" "double" (memory 1)))"#);
    assert_eq!(
        linker_reason(sandbox.instantiate(&memory, &set)),
        "no capability answers the import double"
    );
}

#[test]
fn instantiate_across_engines_is_a_linker_error() {
    let sandbox = Sandbox::new();
    let other = WasmRuntime::new();
    let unit = compile(&other, "(module)");
    let set = CapabilitySet::empty(sandbox.runtime());
    assert_eq!(
        linker_reason(sandbox.instantiate(&unit, &set)),
        "the unit and the capability set belong to different engines"
    );
    // Unit and set of one runtime go together, whichever sandbox instantiates.
    let matching = CapabilitySet::empty(&other);
    assert!(sandbox.instantiate(&unit, &matching).is_ok());
}

#[test]
fn host_reply_of_the_wrong_type_is_an_execution_error() {
    let sandbox = Sandbox::new();
    let mut linker = CapabilityLinker::new(sandbox.runtime());
    linker.register("double", unary(), |_args: Vec<Value>| Some(Value::I64(1))).unwrap();
    let unit = compile(sandbox.runtime(), USES_DOUBLE);
    let mut instance = sandbox.instantiate(&unit, &linker.build()).unwrap();
    match sandbox.execute(&mut instance, "quadruple", &[Value::I32(5)]) {
        Err(SandboxError::Execution(reason)) => assert!(!reason.is_empty()),
        other => panic!("expected an execution error, got {:?}", other),
    }
    let mut silent = CapabilityLinker::new(sandbox.runtime());
    silent.register("double", unary(), |_args: Vec<Value>| None).unwrap();
    let mut instance = sandbox.instantiate(&unit, &silent.build()).unwrap();
    assert!(matches!(
        sandbox.execute(&mut instance, "quadruple", &[Value::I32(5)]),
        Err(SandboxError::Execution(_))
    ));
}

#[test]
fn host_arguments_are_the_scalars_that_fit_the_signature() {
    let signature = Signature::new(vec![ValueType::I32, ValueType::I64], vec![]);
    assert_eq!(
        host_arguments(&signature, vec![Some(Value::I32(1)), Some(Value::I64(2))]),
        Some(vec![Value::I32(1), Value::I64(2)])
    );
    assert_eq!(host_arguments(&signature, vec![Some(Value::I32(1)), None]), None);
    assert_eq!(host_arguments(&signature, vec![Some(Value::I64(2)), Some(Value::I32(1))]), None);
    assert_eq!(host_arguments(&signature, vec![Some(Value::I32(1))]), None);
    assert_eq!(host_arguments(&signature, vec![]), None);
    let none = Signature::new(vec![], vec![]);
    assert_eq!(host_arguments(&none, vec![]), Some(vec![]));
    assert_eq!(host_arguments(&none, vec![None]), None);
}

#[test]
fn host_result_is_the_reply_that_fits_the_signature() {
    let one = Signature::new(vec![], vec![ValueType::I32]);
    assert_eq!(host_result(&one, Some(Value::I32(7))), Some(Value::I32(7)));
    assert_eq!(host_result(&one, Some(Value::I64(7))), None);
    assert_eq!(host_result(&one, None), None);
    let none = Signature::new(vec![], vec![]);
    assert_eq!(host_result(&none, Some(Value::I32(7))), None);
    assert_eq!(host_result(&none, None), None);
    let two = Signature::new(vec![], vec![ValueType::I32, ValueType::I32]);
    assert_eq!(host_result(&two, Some(Value::I32(7))), None);
}

#[test]
fn answer_guest_calls_the_host_only_with_fitting_arguments() {
    let calls = Arc::new(AtomicI64::new(0));
    let counter = calls.clone();
    let host = move |args: Vec<Value>| {
        counter.fetch_add(1, Ordering::SeqCst);
        double(args)
    };
    assert_eq!(answer_guest(&unary(), &host, vec![Some(Value::I32(21))]), vec![Value::I32(42)]);
    assert_eq!(calls.load(Ordering::SeqCst), 1);
    assert_eq!(answer_guest(&unary(), &host, vec![Some(Value::I64(21))]), vec![]);
    assert_eq!(answer_guest(&unary(), &host, vec![None]), vec![]);
    assert_eq!(answer_guest(&unary(), &host, vec![]), vec![]);
    assert_eq!(calls.load(Ordering::SeqCst), 1);
    // A reply that does not fit fills no slot.
    let wrong = |_args: Vec<Value>| Some(Value::I64(1));
    assert_eq!(answer_guest(&unary(), &wrong, vec![Some(Value::I32(1))]), vec![]);
    let silent = |_args: Vec<Value>| None;
    assert_eq!(answer_guest(&unary(), &silent, vec![Some(Value::I32(1))]), vec![]);
    // A reply to a function without results is dropped.
    let sink = Signature::new(vec![ValueType::I32], vec![]);
    assert_eq!(answer_guest(&sink, &double, vec![Some(Value::I32(1))]), vec![]);
}
