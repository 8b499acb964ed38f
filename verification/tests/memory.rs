use wasm_sandbox::instance::Instance;
use wasm_sandbox::linker::CapabilitySet;
use wasm_sandbox::memory::check_access;
use wasm_sandbox::module::Module;
use wasm_sandbox::runtime::{WasmRuntime, DEFAULT_FUEL, DEFAULT_MAX_MEMORY_BYTES};
use wasm_sandbox::sandbox::{guest_pointer, plan_memory_call, Sandbox, SandboxError};
use wasm_sandbox::text::{decimal_text, digit_text};
use wasm_sandbox::value::Value;

const PAGE: usize = 65536;

const WITH_MEMORY: &str = r#"(module
    (memory (export "memory") 1 4)
    (data (i32.const 16) "seed")
    (func (export "peek") (param i32) (result i32)
        local.get 0
        i32.load8_u)
    (func (export "poke") (param i32 i32)
        local.get 0
        local.get 1
        i32.store8)
    (func (export "grow") (param i32) (result i32)
        local.get 0
        memory.grow)
    (func (export "accept") (param i32) (result i32) local.get 0)
    (func (export "refuse") (param i32) (result i32) unreachable)
    (func (export "plain"))
    (func (export "wide") (param i64) (result i32) i32.const 0))"#;

const ZERO_PAGES: &str = r#"(module
    (memory (export "memory") 0)
    (func (export "accept") (param i32) (result i32) local.get 0))"#;

const WITHOUT_MEMORY: &str = r#"(module
    (memory 1)
    (func (export "accept") (param i32) (result i32) local.get 0))"#;

fn instance_of(sandbox: &Sandbox, text: &str) -> Instance {
    let unit = sandbox.runtime().compile(&Module::from_bytes(text.as_bytes().to_vec())).unwrap();
    sandbox.instantiate(&unit, &CapabilitySet::empty(sandbox.runtime())).unwrap()
}

fn is_out_of_bounds<T: std::fmt::Debug>(outcome: Result<T, SandboxError>) -> bool {
    matches!(outcome, Err(SandboxError::OutOfBounds))
}

fn execution_reason<T: std::fmt::Debug>(outcome: Result<T, SandboxError>) -> String {
    match outcome {
        Err(SandboxError::Execution(reason)) => reason,
        other => panic!("expected an execution error, got {:?}", other),
    }
}

#[test]
fn check_access_allows_exactly_what_fits() {
    assert!(check_access(8, 0, 8).is_ok());
    assert!(check_access(8, 8, 0).is_ok());
    assert!(check_access(8, 3, 5).is_ok());
    assert!(check_access(0, 0, 0).is_ok());
    assert!(is_out_of_bounds(check_access(8, 0, 9)));
    assert!(is_out_of_bounds(check_access(8, 9, 0)));
    assert!(is_out_of_bounds(check_access(8, 4, 5)));
    assert!(is_out_of_bounds(check_access(0, 0, 1)));
}

#[test]
fn check_access_refuses_ten_bytes_in_a_memory_of_eight() {
    assert!(is_out_of_bounds(check_access(8, 0, 10)));
}

#[test]
fn check_access_does_not_wrap_around() {
    assert!(is_out_of_bounds(check_access(8, usize::MAX, 2)));
    assert!(is_out_of_bounds(check_access(8, 2, usize::MAX)));
    assert!(is_out_of_bounds(check_access(usize::MAX, usize::MAX, 1)));
    assert!(check_access(usize::MAX, usize::MAX - 1, 1).is_ok());
}

#[test]
fn memory_size_is_the_current_size() {
    let sandbox = Sandbox::new();
    let mut instance = instance_of(&sandbox, WITH_MEMORY);
    assert_eq!(instance.memory_size().unwrap(), PAGE);
    assert_eq!(sandbox.execute(&mut instance, "grow", &[Value::I32(2)]).unwrap(), vec![Value::I32(1)]);
    assert_eq!(instance.memory_size().unwrap(), 3 * PAGE);
    let empty = instance_of(&sandbox, ZERO_PAGES);
    assert_eq!(empty.memory_size().unwrap(), 0);
}

#[test]
fn read_returns_what_the_guest_holds() {
    let sandbox = Sandbox::new();
    let instance = instance_of(&sandbox, WITH_MEMORY);
    assert_eq!(instance.read(16, 4).unwrap(), b"seed".to_vec());
    assert_eq!(instance.read(14, 8).unwrap(), vec![0, 0, b's', b'e', b'e', b'd', 0, 0]);
    assert_eq!(instance.read(0, 0).unwrap(), Vec::<u8>::new());
    assert_eq!(instance.read(PAGE, 0).unwrap(), Vec::<u8>::new());
    assert_eq!(instance.read(PAGE - 1, 1).unwrap(), vec![0]);
}

#[test]
fn write_then_read_gives_the_bytes_back() {
    let sandbox = Sandbox::new();
    let mut instance = instance_of(&sandbox, WITH_MEMORY);
    assert_eq!(instance.write(100, b"hello").unwrap(), 100);
    assert_eq!(instance.read(100, 5).unwrap(), b"hello".to_vec());
    // The neighbours are untouched.
    assert_eq!(instance.read(98, 9).unwrap(), vec![0, 0, b'h', b'e', b'l', b'l', b'o', 0, 0]);
    assert_eq!(instance.read(16, 4).unwrap(), b"seed".to_vec());
    // The guest sees what the host wrote, and the host what the guest wrote.
    assert_eq!(
        sandbox.execute(&mut instance, "peek", &[Value::I32(101)]).unwrap(),
        vec![Value::I32(i32::from(b'e'))]
    );
    sandbox.execute(&mut instance, "poke", &[Value::I32(101), Value::I32(0x41)]).unwrap();
    assert_eq!(instance.read(100, 5).unwrap(), b"hAllo".to_vec());
}

#[test]
fn write_to_the_last_bytes_is_allowed() {
    let sandbox = Sandbox::new();
    let mut instance = instance_of(&sandbox, WITH_MEMORY);
    assert_eq!(instance.write(PAGE - 3, &[1, 2, 3]).unwrap(), PAGE - 3);
    assert_eq!(instance.read(PAGE - 3, 3).unwrap(), vec![1, 2, 3]);
    assert_eq!(instance.write(PAGE, &[]).unwrap(), PAGE);
}

#[test]
fn write_beyond_the_memory_fails_and_changes_nothing() {
    let sandbox = Sandbox::new();
    let mut instance = instance_of(&sandbox, WITH_MEMORY);
    let before = instance.read(0, PAGE).unwrap();
    assert!(is_out_of_bounds(instance.write(PAGE - 8, &[9; 10])));
    assert!(is_out_of_bounds(instance.write(PAGE, &[9])));
    assert!(is_out_of_bounds(instance.write(PAGE + 1, &[])));
    assert!(is_out_of_bounds(instance.write(usize::MAX, &[9, 9])));
    assert_eq!(instance.read(0, PAGE).unwrap(), before);
    assert_eq!(instance.memory_size().unwrap(), PAGE);
}

#[test]
fn write_into_an_empty_memory_fails() {
    let sandbox = Sandbox::new();
    let mut instance = instance_of(&sandbox, ZERO_PAGES);
    assert!(is_out_of_bounds(instance.write(0, &[0; 10])));
    assert_eq!(instance.write(0, &[]).unwrap(), 0);
    assert_eq!(instance.memory_size().unwrap(), 0);
}

#[test]
fn read_beyond_the_memory_fails() {
    let sandbox = Sandbox::new();
    let instance = instance_of(&sandbox, WITH_MEMORY);
    assert!(is_out_of_bounds(instance.read(PAGE - 8, 10)));
    assert!(is_out_of_bounds(instance.read(PAGE, 1)));
    assert!(is_out_of_bounds(instance.read(PAGE + 1, 0)));
    assert!(is_out_of_bounds(instance.read(usize::MAX, 2)));
    assert!(is_out_of_bounds(instance.read(1, usize::MAX)));
}

#[test]
fn bounds_follow_the_memory_as_the_guest_grows_it() {
    let sandbox = Sandbox::new();
    let mut instance = instance_of(&sandbox, WITH_MEMORY);
    assert!(is_out_of_bounds(instance.write(PAGE, b"late")));
    assert!(is_out_of_bounds(instance.read(PAGE, 4)));
    sandbox.execute(&mut instance, "grow", &[Value::I32(1)]).unwrap();
    assert_eq!(instance.read(PAGE, 4).unwrap(), vec![0; 4]);
    assert_eq!(instance.write(PAGE, b"late").unwrap(), PAGE);
    assert_eq!(instance.read(PAGE, 4).unwrap(), b"late".to_vec());
    assert!(is_out_of_bounds(instance.write(2 * PAGE - 3, b"late")));
}

#[test]
fn guest_memory_stops_growing_at_the_limit() {
    let sandbox = Sandbox::with_runtime(WasmRuntime::with_limits(DEFAULT_FUEL, 1 << 20, 2 * PAGE));
    let mut instance = instance_of(&sandbox, WITH_MEMORY);
    assert_eq!(instance.memory_limit(), 2 * PAGE);
    assert_eq!(sandbox.execute(&mut instance, "grow", &[Value::I32(1)]).unwrap(), vec![Value::I32(1)]);
    assert_eq!(instance.memory_size().unwrap(), 2 * PAGE);
    // The guest is told that its memory cannot grow; nothing traps.
    assert_eq!(sandbox.execute(&mut instance, "grow", &[Value::I32(1)]).unwrap(), vec![Value::I32(-1)]);
    assert_eq!(instance.memory_size().unwrap(), 2 * PAGE);
    assert_eq!(instance.write(2 * PAGE - 2, b"ok").unwrap(), 2 * PAGE - 2);
    assert!(is_out_of_bounds(instance.write(2 * PAGE - 1, b"ok")));
}

#[test]
fn module_that_declares_more_memory_than_the_limit_does_not_start() {
    let sandbox = Sandbox::with_runtime(WasmRuntime::with_limits(DEFAULT_FUEL, 1 << 20, PAGE));
    let unit = sandbox
        .runtime()
        .compile(&Module::from_bytes(b"(module (memory (export \"memory\") 2))".to_vec()))
        .unwrap();
    match sandbox.instantiate(&unit, &CapabilitySet::empty(sandbox.runtime())) {
        Err(SandboxError::Execution(reason)) => assert!(!reason.is_empty()),
        other => panic!("expected an execution error, got {:?}", other.map(|_| ())),
    }
    let roomy = Sandbox::new();
    assert_eq!(roomy.runtime().max_memory_bytes(), DEFAULT_MAX_MEMORY_BYTES);
    let unit = roomy
        .runtime()
        .compile(&Module::from_bytes(b"(module (memory (export \"memory\") 2))".to_vec()))
        .unwrap();
    let instance = roomy.instantiate(&unit, &CapabilitySet::empty(roomy.runtime())).unwrap();
    assert_eq!(instance.memory_size().unwrap(), 2 * PAGE);
}

#[test]
fn memory_operations_need_an_exported_memory() {
    let sandbox = Sandbox::new();
    let mut instance = instance_of(&sandbox, WITHOUT_MEMORY);
    assert_eq!(execution_reason(instance.memory_size()), "memory not found");
    assert_eq!(execution_reason(instance.read(0, 1)), "memory not found");
    assert_eq!(execution_reason(instance.write(0, &[1])), "memory not found");
    assert_eq!(
        execution_reason(sandbox.execute_with_memory(&mut instance, "accept", "")),
        "memory not found"
    );
    // A missing memory is reported before a missing function.
    assert_eq!(
        execution_reason(sandbox.execute_with_memory(&mut instance, "nothing", "")),
        "memory not found"
    );
}

#[test]
fn memory_operations_on_a_terminated_instance_fail() {
    let sandbox = Sandbox::new();
    let mut instance = instance_of(&sandbox, WITH_MEMORY);
    instance.terminate();
    assert_eq!(execution_reason(instance.memory_size()), "instance terminated");
    assert_eq!(execution_reason(instance.read(0, 1)), "instance terminated");
    assert_eq!(execution_reason(instance.write(0, &[1])), "instance terminated");
    assert_eq!(
        execution_reason(sandbox.execute_with_memory(&mut instance, "accept", "")),
        "instance terminated"
    );
}

#[test]
fn execute_with_memory_names_the_offset() {
    let sandbox = Sandbox::new();
    let mut instance = instance_of(&sandbox, WITH_MEMORY);
    assert_eq!(
        sandbox.execute_with_memory(&mut instance, "accept", "").unwrap(),
        "Executed with memory at offset 65536"
    );
    sandbox.execute(&mut instance, "grow", &[Value::I32(1)]).unwrap();
    assert_eq!(
        sandbox.execute_with_memory(&mut instance, "accept", "").unwrap(),
        "Executed with memory at offset 131072"
    );
    let mut empty = instance_of(&sandbox, ZERO_PAGES);
    assert_eq!(
        sandbox.execute_with_memory(&mut empty, "accept", "").unwrap(),
        "Executed with memory at offset 0"
    );
}

#[test]
fn execute_with_memory_does_not_grow_the_memory() {
    let sandbox = Sandbox::new();
    let mut instance = instance_of(&sandbox, WITH_MEMORY);
    let before = instance.read(0, PAGE).unwrap();
    assert!(is_out_of_bounds(sandbox.execute_with_memory(&mut instance, "accept", "x")));
    assert!(is_out_of_bounds(sandbox.execute_with_memory(&mut instance, "accept", "0123456789")));
    // Bounds are reported before a missing function.
    assert!(is_out_of_bounds(sandbox.execute_with_memory(&mut instance, "nothing", "x")));
    assert_eq!(instance.memory_size().unwrap(), PAGE);
    assert_eq!(instance.read(0, PAGE).unwrap(), before);
}

#[test]
fn execute_with_memory_resolves_the_function() {
    let sandbox = Sandbox::new();
    let mut instance = instance_of(&sandbox, WITH_MEMORY);
    match sandbox.execute_with_memory(&mut instance, "nothing", "") {
        Err(SandboxError::FunctionNotFound(name)) => assert_eq!(name, "nothing"),
        other => panic!("expected function not found, got {:?}", other),
    }
    // No default entry point stands in for an empty name here.
    match sandbox.execute_with_memory(&mut instance, "", "") {
        Err(SandboxError::FunctionNotFound(name)) => assert_eq!(name, ""),
        other => panic!("expected function not found, got {:?}", other),
    }
    match sandbox.execute_with_memory(&mut instance, "memory", "") {
        Err(SandboxError::FunctionNotFound(name)) => assert_eq!(name, "memory"),
        other => panic!("expected function not found, got {:?}", other),
    }
}

#[test]
fn execute_with_memory_needs_a_function_of_one_pointer() {
    let sandbox = Sandbox::new();
    let mut instance = instance_of(&sandbox, WITH_MEMORY);
    for name in ["plain", "poke", "wide"] {
        assert_eq!(
            execution_reason(sandbox.execute_with_memory(&mut instance, name, "")),
            "argument mismatch"
        );
    }
}

#[test]
fn execute_with_memory_reports_a_trap() {
    let sandbox = Sandbox::new();
    let mut instance = instance_of(&sandbox, WITH_MEMORY);
    let reason = execution_reason(sandbox.execute_with_memory(&mut instance, "refuse", ""));
    assert!(!reason.is_empty());
    assert_eq!(
        sandbox.execute_with_memory(&mut instance, "accept", "").unwrap(),
        "Executed with memory at offset 65536"
    );
}

#[test]
fn decimal_text_writes_numbers() {
    assert_eq!(decimal_text(0), "0");
    assert_eq!(decimal_text(7), "7");
    assert_eq!(decimal_text(10), "10");
    assert_eq!(decimal_text(65536), "65536");
    assert_eq!(decimal_text(1234567890), "1234567890");
    assert_eq!(decimal_text(usize::MAX), usize::MAX.to_string());
    for d in 0..10 {
        assert_eq!(digit_text(d), d.to_string());
    }
}

#[test]
fn guest_pointer_wraps_like_a_guest_address() {
    assert_eq!(guest_pointer(0), 0);
    assert_eq!(guest_pointer(65536), 65536);
    assert_eq!(guest_pointer(0x7fff_ffff), i32::MAX);
    assert_eq!(guest_pointer(0x8000_0000), i32::MIN);
    assert_eq!(guest_pointer(0xffff_ffff), -1);
}

#[test]
fn plan_memory_call_places_the_input_at_the_end() {
    let sandbox = Sandbox::new();
    let mut instance = instance_of(&sandbox, WITH_MEMORY);
    let plan = plan_memory_call(&instance, "accept", "").unwrap();
    assert_eq!(plan.offset, PAGE);
    assert_eq!(plan.call.name, "accept");
    assert_eq!(plan.call.args, vec![Value::I32(65536)]);
    assert_eq!(plan.call.results.len(), 1);
    sandbox.execute(&mut instance, "grow", &[Value::I32(2)]).unwrap();
    let plan = plan_memory_call(&instance, "accept", "").unwrap();
    assert_eq!(plan.offset, 3 * PAGE);
    assert_eq!(plan.call.args, vec![Value::I32(196608)]);
    assert!(is_out_of_bounds(plan_memory_call(&instance, "accept", "x")));
    assert_eq!(execution_reason(plan_memory_call(&instance, "plain", "")), "argument mismatch");
    match plan_memory_call(&instance, "nothing", "") {
        Err(SandboxError::FunctionNotFound(name)) => assert_eq!(name, "nothing"),
        other => panic!("expected function not found, got {:?}", other),
    }
}

#[test]
fn guest_receives_the_planned_pointer() {
    let sandbox = Sandbox::new();
    let mut instance = instance_of(&sandbox, WITH_MEMORY);
    let plan = plan_memory_call(&instance, "accept", "").unwrap();
    // "accept" hands its argument back.
    assert_eq!(
        sandbox.execute(&mut instance, "accept", &plan.call.args).unwrap(),
        vec![Value::I32(65536)]
    );
}

#[test]
fn instance_has_a_memory_exactly_when_its_unit_exports_one() {
    let sandbox = Sandbox::new();
    assert!(instance_of(&sandbox, WITH_MEMORY).memory_size().is_ok());
    assert!(instance_of(&sandbox, ZERO_PAGES).memory_size().is_ok());
    assert!(instance_of(&sandbox, WITHOUT_MEMORY).memory_size().is_err());
    let other_name = "(module (memory (export \"heap\") 1))";
    assert!(instance_of(&sandbox, other_name).memory_size().is_err());
    let not_a_memory = "(module (func (export \"memory\")))";
    assert!(instance_of(&sandbox, not_a_memory).memory_size().is_err());
}
