//! The sandbox: instantiation under a capability set, execution of entry
//! points, and the errors that either can end in.

use vstd::prelude::*;
use vstd::string::StringSliceAdditionalSpecFns;
use crate::engine::{wasm_exports, wasm_imports};
use crate::instance::{CallOutcome, CallPlan, Instance, MEMORY_EXPORT};
use crate::interface::{
    exported_function, find_function, function_names, list_function_names, lookup, texts,
    ExternSpec,
};
use crate::linker::{covers, CapabilitySet};
use crate::memory::{check_access, in_bounds};
use crate::module::{Module, ModuleError};
use crate::runtime::{CompiledUnit, WasmRuntime};
use crate::text::{decimal, decimal_text};
use crate::value::{
    all_present, all_scalar, check_scalar, check_types, collect_present, copy_types, present,
    well_typed, Value, ValueType,
};

verus! {

/// The entry point that is called where the caller names none.
pub const DEFAULT_ENTRY: &'static str = "_start";

/// The mathematical content of a [`SandboxError`].
pub enum SandboxErrorSpec {
    Compile(Seq<char>),
    Execution(Seq<char>),
    Linker(Seq<char>),
    FunctionNotFound(Seq<char>),
    DuplicateCapability(Seq<char>),
    OutOfBounds,
}

impl SandboxErrorSpec {
    /// The text that describes the error.
    pub open spec fn message(self) -> Seq<char> {
        match self {
            SandboxErrorSpec::Compile(reason) => "compilation error: "@ + reason,
            SandboxErrorSpec::Execution(reason) => "execution error: "@ + reason,
            SandboxErrorSpec::Linker(reason) => "linker error: "@ + reason,
            SandboxErrorSpec::FunctionNotFound(name) => "function not found: "@ + name,
            SandboxErrorSpec::DuplicateCapability(name) => "duplicate capability: "@ + name,
            SandboxErrorSpec::OutOfBounds => "out of bounds memory access"@,
        }
    }
}

/// Why the sandbox refused a request. Every failure comes back as one of
/// these; none of them ends the host process.
#[derive(Debug)]
pub enum SandboxError {
    /// The bytes are not a module that the runtime admits.
    Compile(String),
    /// The guest trapped, ran out of fuel, or could not be called as asked.
    Execution(String),
    /// The capability set does not cover what the module imports.
    Linker(String),
    /// The module exports no function of that name.
    FunctionNotFound(String),
    /// A capability of that name is registered already.
    DuplicateCapability(String),
    /// A read or write would leave the guest's memory as it is now.
    OutOfBounds,
}

impl View for SandboxError {
    type V = SandboxErrorSpec;

    open spec fn view(&self) -> SandboxErrorSpec {
        match self {
            SandboxError::Compile(reason) => SandboxErrorSpec::Compile(reason@),
            SandboxError::Execution(reason) => SandboxErrorSpec::Execution(reason@),
            SandboxError::Linker(reason) => SandboxErrorSpec::Linker(reason@),
            SandboxError::FunctionNotFound(name) => SandboxErrorSpec::FunctionNotFound(name@),
            SandboxError::DuplicateCapability(name) => SandboxErrorSpec::DuplicateCapability(
                name@,
            ),
            SandboxError::OutOfBounds => SandboxErrorSpec::OutOfBounds,
        }
    }
}

impl SandboxError {
    /// The text that describes the error: its kind, then the reason or name.
    pub fn message(&self) -> (text: String)
        ensures
            text@ == self@.message(),
    {
        match self {
            SandboxError::Compile(reason) => "compilation error: ".to_owned().concat(
                reason.as_str(),
            ),
            SandboxError::Execution(reason) => "execution error: ".to_owned().concat(
                reason.as_str(),
            ),
            SandboxError::Linker(reason) => "linker error: ".to_owned().concat(reason.as_str()),
            SandboxError::FunctionNotFound(name) => "function not found: ".to_owned().concat(
                name.as_str(),
            ),
            SandboxError::DuplicateCapability(name) => "duplicate capability: ".to_owned().concat(
                name.as_str(),
            ),
            SandboxError::OutOfBounds => "out of bounds memory access".to_owned(),
        }
    }
}

/// The name of the function that a request for `entry` calls: the default
/// entry point where `entry` is empty.
pub open spec fn entry_name(entry: Seq<char>) -> Seq<char> {
    if entry.len() == 0 {
        DEFAULT_ENTRY@
    } else {
        entry
    }
}

/// Why a call of `entry` with `args` is turned down before the guest runs, if
/// it is: the instance was torn down, it exports no such function, the
/// arguments do not have the types of its parameters, or its results are no
/// scalars.
pub open spec fn refusal(instance: Instance, entry: Seq<char>, args: Seq<Value>) -> Option<
    SandboxErrorSpec,
> {
    if instance.terminated() {
        Some(SandboxErrorSpec::Execution("instance terminated"@))
    } else {
        match exported_function(instance.exported(), entry_name(entry)) {
            None => Some(SandboxErrorSpec::FunctionNotFound(entry_name(entry))),
            Some(signature) => if !signature.accepts(args) {
                Some(SandboxErrorSpec::Execution("argument mismatch"@))
            } else if !all_scalar(signature.results) {
                Some(SandboxErrorSpec::Execution("unsupported result type"@))
            } else {
                None
            },
        }
    }
}

/// Why a call of `name` on `input_length` bytes of input is turned down
/// before anything is written, if it is: the instance was torn down, it has no
/// memory, the input does not fit at the end of the memory as it is now, it
/// exports no such function, or the function does not take one pointer and
/// return one result.
pub open spec fn memory_refusal(instance: Instance, name: Seq<char>, input_length: nat) -> Option<
    SandboxErrorSpec,
> {
    if instance.terminated() {
        Some(SandboxErrorSpec::Execution("instance terminated"@))
    } else if !instance.has_memory() {
        Some(SandboxErrorSpec::Execution("memory not found"@))
    } else if !in_bounds(instance.memory().len(), instance.memory().len(), input_length) {
        Some(SandboxErrorSpec::OutOfBounds)
    } else {
        match exported_function(instance.exported(), name) {
            None => Some(SandboxErrorSpec::FunctionNotFound(name)),
            Some(signature) => if signature.params != seq![ValueType::I32]
                || signature.results.len() != 1 {
                Some(SandboxErrorSpec::Execution("argument mismatch"@))
            } else {
                None
            },
        }
    }
}

/// The argument that the guest receives for a place in its memory: the offset
/// as a 32-bit integer, wrapped around as the guest's own pointers are.
pub open spec fn pointer_of(offset: usize) -> i32 {
    offset as i32
}

/// Computes [`pointer_of`].
pub fn guest_pointer(offset: usize) -> (pointer: i32)
    ensures
        pointer == pointer_of(offset),
{
    #[verifier::truncate]
    (offset as i32)
}

/// A call that passes input through the guest's memory: where the input goes,
/// and the call that is made once it is there.
#[derive(Debug)]
pub struct MemoryCall {
    pub offset: usize,
    pub call: CallPlan,
}

/// Decides what a request for `entry` with `args` comes to before the guest
/// runs: the error of [`refusal`], or the call to make. The call names the
/// function that was resolved, the default entry point where `entry` is empty;
/// it passes the arguments as they were given; and it expects the results
/// that the function declares.
pub fn plan_call(instance: &Instance, entry: &str, args: &[Value]) -> (plan: Result<
    CallPlan,
    SandboxError,
>)
    requires
        instance.wf(),
    ensures
        refusal(*instance, entry@, args@) matches Some(reason) ==> (plan matches Err(error)
            && error@ == reason),
        refusal(*instance, entry@, args@) is None ==> (plan matches Ok(call) && call.name@
            == entry_name(entry@) && call.args@ == args@ && call.results@ == exported_function(
            instance.exported(),
            entry_name(entry@),
        )->0.results),
{
    if instance.is_terminated() {
        return Err(SandboxError::Execution("instance terminated".to_owned()));
    }
    let name = if entry.is_empty() {
        DEFAULT_ENTRY
    } else {
        entry
    };
    let signature = match find_function(instance.exports(), name) {
        None => {
            return Err(SandboxError::FunctionNotFound(name.to_owned()));
        },
        Some(signature) => signature,
    };
    if !signature.accepts(args) {
        return Err(SandboxError::Execution("argument mismatch".to_owned()));
    }
    if !check_scalar(&signature.results) {
        return Err(SandboxError::Execution("unsupported result type".to_owned()));
    }
    Ok(
        CallPlan {
            name: name.to_owned(),
            args: vstd::slice::slice_to_vec(args),
            results: copy_types(&signature.results),
        },
    )
}

/// Decides what a request to call `name` on `input` comes to before anything
/// is written: the error of [`memory_refusal`], or the place for the input and
/// the call to make. The input goes to the end of the memory as it is now;
/// the call names the function as it was given, passes the pointer to that
/// place as its one argument, and expects the one result that the function
/// declares.
pub fn plan_memory_call(instance: &Instance, name: &str, input: &str) -> (plan: Result<
    MemoryCall,
    SandboxError,
>)
    requires
        instance.wf(),
    ensures
        memory_refusal(*instance, name@, input.spec_bytes().len()) matches Some(reason) ==> (
        plan matches Err(error) && error@ == reason),
        memory_refusal(*instance, name@, input.spec_bytes().len()) is None ==> (plan matches Ok(
            planned,
        ) && planned.offset == instance.memory().len() && planned.call.name@ == name@
            && planned.call.args@ == seq![Value::I32(pointer_of(planned.offset))]
            && planned.call.results@ == exported_function(instance.exported(), name@)->0.results),
{
    let offset = match instance.memory_size() {
        Err(error) => {
            return Err(error);
        },
        Ok(size) => size,
    };
    match check_access(offset, offset, input.as_bytes().len()) {
        Err(error) => {
            return Err(error);
        },
        Ok(()) => {},
    }
    let signature = match find_function(instance.exports(), name) {
        None => {
            return Err(SandboxError::FunctionNotFound(name.to_owned()));
        },
        Some(signature) => signature,
    };
    if signature.params.len() != 1 || signature.params[0] != ValueType::I32
        || signature.results.len() != 1 {
        assert(signature@.params != seq![ValueType::I32] || signature@.results.len() != 1) by {
            if signature@.params == seq![ValueType::I32] {
                assert(seq![ValueType::I32].len() == 1);
                assert(seq![ValueType::I32][0] == ValueType::I32);
            }
        }
        return Err(SandboxError::Execution("argument mismatch".to_owned()));
    }
    assert(signature@.params =~= seq![ValueType::I32]);
    let mut args: Vec<Value> = Vec::new();
    args.push(Value::I32(guest_pointer(offset)));
    assert(args@ =~= seq![Value::I32(pointer_of(offset))]);
    Ok(
        MemoryCall {
            offset,
            call: CallPlan { name: name.to_owned(), args, results: copy_types(&signature.results) },
        },
    )
}

/// What the caller gets for an answer of the engine: the results, where the
/// call returned and each result is a scalar of the declared type; else an
/// execution error, with the engine's reason where the engine gave one.
pub open spec fn settled(results: Seq<ValueType>, outcome: CallOutcome) -> Result<
    Seq<Value>,
    SandboxErrorSpec,
> {
    match outcome {
        CallOutcome::Failed(reason) => Err(SandboxErrorSpec::Execution(reason@)),
        CallOutcome::Returned(values) => if all_present(values@) && well_typed(
            present(values@),
            results,
        ) {
            Ok(present(values@))
        } else {
            Err(SandboxErrorSpec::Execution("result mismatch"@))
        },
    }
}

/// Turns the engine's answer to a call into the caller's result, as
/// [`settled`] says, for a function that declares the given result types.
pub fn settle(results: &Vec<ValueType>, outcome: CallOutcome) -> (result: Result<
    Vec<Value>,
    SandboxError,
>)
    ensures
        result matches Ok(values) ==> settled(results@, outcome) == Ok::<
            Seq<Value>,
            SandboxErrorSpec,
        >(values@),
        result matches Err(error) ==> settled(results@, outcome) == Err::<
            Seq<Value>,
            SandboxErrorSpec,
        >(error@),
{
    match outcome {
        CallOutcome::Failed(reason) => Err(SandboxError::Execution(reason)),
        CallOutcome::Returned(raw) => match collect_present(&raw) {
            Some(values) => if check_types(values.as_slice(), results) {
                Ok(values)
            } else {
                Err(SandboxError::Execution("result mismatch".to_owned()))
            },
            None => Err(SandboxError::Execution("result mismatch".to_owned())),
        },
    }
}

/// The orchestrator: instantiates units under capability sets, resolves and
/// calls entry points, and moves data across the boundary.
pub struct Sandbox {
    runtime: WasmRuntime,
}

impl Sandbox {
    /// The runtime that the sandbox compiles with.
    pub closed spec fn runtime_spec(&self) -> &WasmRuntime {
        &self.runtime
    }

    /// A sandbox with a runtime of its own, under the default limits.
    pub fn new() -> (sandbox: Self)
        ensures
            sandbox.runtime().fuel() == crate::runtime::DEFAULT_FUEL,
            sandbox.runtime().max_module_bytes() == crate::runtime::DEFAULT_MAX_MODULE_BYTES,
            sandbox.runtime().max_memory_bytes() == crate::runtime::DEFAULT_MAX_MEMORY_BYTES,
    {
        Sandbox { runtime: WasmRuntime::new() }
    }

    /// A sandbox on the given runtime.
    pub fn with_runtime(runtime: WasmRuntime) -> (sandbox: Self)
        ensures
            *sandbox.runtime() == runtime,
    {
        Sandbox { runtime }
    }

    /// The runtime that the sandbox compiles with. Units and capability sets
    /// for this sandbox are made with it.
    #[verifier::when_used_as_spec(runtime_spec)]
    pub fn runtime(&self) -> (runtime: &WasmRuntime)
        ensures
            runtime == self.runtime(),
    {
        &self.runtime
    }

    /// Instantiates `unit` under `capabilities`, with the fuel and the memory
    /// limit of this sandbox's runtime.
    ///
    /// Where the capability set does not cover every import of the unit, or
    /// was made for another engine than the unit, the result is a linker
    /// error. Where the engine then cannot start the module, the result is an
    /// execution error. In both cases no instance comes into being. An
    /// instance has a memory exactly where its unit exports one as `memory`.
    pub fn instantiate(&self, unit: &CompiledUnit, capabilities: &CapabilitySet) -> (outcome:
        Result<Instance, SandboxError>)
        requires
            unit.wf(),
            capabilities.wf(),
        ensures
            outcome is Ok ==> covers(capabilities@, unit.imported()) && capabilities.engine_id()
                == unit.engine_id(),
            outcome matches Ok(instance) ==> {
                &&& instance.wf()
                &&& !instance.terminated()
                &&& instance.exported() == unit.exported()
                &&& instance.fuel() == self.runtime().fuel()
                &&& instance.memory_limit() == self.runtime().max_memory_bytes()
                &&& instance.has_memory() <==> lookup(unit.exported(), MEMORY_EXPORT@) == Some(
                    ExternSpec::Memory,
                )
            },
            outcome matches Err(error) ==> (error is Linker <==> !(covers(
                capabilities@,
                unit.imported(),
            ) && capabilities.engine_id() == unit.engine_id())),
            outcome matches Err(error) ==> error is Linker || error is Execution,
    {
        Instance::create(
            unit,
            capabilities,
            self.runtime.fuel(),
            self.runtime.max_memory_bytes(),
        )
    }

    /// Calls the function that `instance` exports as `entry`, or as the
    /// default entry point where `entry` is empty, with `args`, and returns
    /// its results unchanged.
    ///
    /// A request that [`refusal`] turns down fails with that error and leaves
    /// the instance exactly as it was. Otherwise the call that [`plan_call`]
    /// describes is made, on fresh fuel, and [`settle`] turns the engine's
    /// answer into the result: either results of the declared types, or an
    /// execution error with the reason (a trap, an exhausted budget). The
    /// instance stays usable either way.
    pub fn execute(&self, instance: &mut Instance, entry: &str, args: &[Value]) -> (outcome: Result<
        Vec<Value>,
        SandboxError,
    >)
        requires
            old(instance).wf(),
        ensures
            final(instance).wf(),
            final(instance).terminated() == old(instance).terminated(),
            final(instance).exported() == old(instance).exported(),
            final(instance).has_memory() == old(instance).has_memory(),
            final(instance).fuel() == old(instance).fuel(),
            final(instance).memory_limit() == old(instance).memory_limit(),
            refusal(*old(instance), entry@, args@) matches Some(reason) ==> {
                &&& outcome matches Err(error)
                &&& error@ == reason
                &&& *final(instance) == *old(instance)
            },
            refusal(*old(instance), entry@, args@) is None ==> {
                &&& outcome matches Ok(values) ==> well_typed(
                    values@,
                    exported_function(old(instance).exported(), entry_name(entry@))->0.results,
                )
                &&& outcome matches Err(error) ==> error is Execution
            },
    {
        let plan = match plan_call(instance, entry, args) {
            Err(error) => {
                return Err(error);
            },
            Ok(plan) => plan,
        };
        let answer = instance.invoke(&plan);
        settle(&plan.results, answer)
    }

    /// Places `input` at the end of the guest's memory and calls the function
    /// that `instance` exports as `func_name` with a pointer to it. The
    /// function takes that one `i32` and returns one result, which is dropped.
    /// On success the text names the offset of the input.
    ///
    /// The memory is not grown to make room, so the input has to fit at the
    /// end of the memory as it is now, and only the empty input does; any
    /// other is refused with `OutOfBounds`. A request that
    /// [`memory_refusal`] turns down fails with that error and leaves the
    /// instance exactly as it was: nothing is written unless the call is made.
    /// Otherwise the input is written and the call that [`plan_memory_call`]
    /// describes is made.
    pub fn execute_with_memory(&self, instance: &mut Instance, func_name: &str, input: &str) -> (outcome:
        Result<String, SandboxError>)
        requires
            old(instance).wf(),
        ensures
            final(instance).wf(),
            final(instance).terminated() == old(instance).terminated(),
            final(instance).exported() == old(instance).exported(),
            final(instance).has_memory() == old(instance).has_memory(),
            final(instance).fuel() == old(instance).fuel(),
            final(instance).memory_limit() == old(instance).memory_limit(),
            memory_refusal(*old(instance), func_name@, input.spec_bytes().len()) matches Some(
                reason,
            ) ==> {
                &&& outcome matches Err(error)
                &&& error@ == reason
                &&& *final(instance) == *old(instance)
            },
            memory_refusal(*old(instance), func_name@, input.spec_bytes().len()) is None ==> {
                &&& outcome matches Ok(text) ==> text@ == "Executed with memory at offset "@
                    + decimal(old(instance).memory().len())
                &&& outcome matches Err(error) ==> error is Execution
            },
    {
        let plan = match plan_memory_call(instance, func_name, input) {
            Err(error) => {
                return Err(error);
            },
            Ok(plan) => plan,
        };
        match instance.write(plan.offset, input.as_bytes()) {
            Err(error) => {
                return Err(error);
            },
            Ok(_) => {},
        }
        match instance.invoke(&plan.call) {
            CallOutcome::Failed(reason) => Err(SandboxError::Execution(reason)),
            CallOutcome::Returned(_) => Ok(
                "Executed with memory at offset ".to_owned().concat(
                    decimal_text(plan.offset).as_str(),
                ),
            ),
        }
    }

    /// Lists the functions that `unit` exports, by name and in the order of
    /// their declaration, without instantiating it.
    pub fn list_functions(&self, unit: &CompiledUnit) -> (names: Vec<String>)
        ensures
            texts(names@) == function_names(unit.exported()),
    {
        list_function_names(unit.exports())
    }

    /// Serves one request from bytes to result: compiles `module`,
    /// instantiates it under `capabilities`, calls `entry` with `args` as
    /// [`Sandbox::execute`] does, and tears the instance down.
    ///
    /// A module that the runtime does not admit fails with a compile error;
    /// one that the engine cannot start fails with an execution error; imports that the
    /// capability set does not cover, and a capability set of another
    /// runtime, fail with a linker error; an entry that
    /// the module does not export as a function fails with
    /// `FunctionNotFound`. Results come back only from a function that the
    /// module exports under that name, called with arguments of its parameter
    /// types, and they have its result types.
    pub fn run(&self, module: &Module, capabilities: &CapabilitySet, entry: &str, args: &[Value]) -> (outcome:
        Result<Vec<Value>, SandboxError>)
        requires
            capabilities.wf(),
        ensures
            outcome matches Err(error) ==> (error is Compile <==> !self.runtime().admits(module@)),
            !self.runtime().admits(module@) ==> outcome is Err,
            outcome matches Err(error) ==> module@.len() > self.runtime().max_module_bytes()
                ==> error@ == SandboxErrorSpec::Compile("module exceeds the size limit"@),
            self.runtime().admits(module@) ==> (outcome matches Err(error) && error is Linker
                <==> !(covers(capabilities@, wasm_imports(module@)) && capabilities.engine_id()
                == self.runtime().engine_id())),
            outcome matches Ok(values) ==> {
                &&& exported_function(wasm_exports(module@), entry_name(entry@)) matches Some(
                    signature,
                )
                &&& signature.accepts(args@)
                &&& well_typed(values@, signature.results)
            },
            outcome matches Err(error) ==> error is Compile || error is Execution
                || error is Linker || error is FunctionNotFound,
            outcome matches Err(error) ==> error is FunctionNotFound ==> {
                &&& error@ == SandboxErrorSpec::FunctionNotFound(entry_name(entry@))
                &&& exported_function(wasm_exports(module@), entry_name(entry@)) is None
            },
    {
        let unit = match self.runtime.compile(module) {
            Err(ModuleError::Compile(reason)) => {
                return Err(SandboxError::Compile(reason));
            },
            Err(ModuleError::Instantiate(reason)) => {
                return Err(SandboxError::Compile(reason));
            },
            Ok(unit) => unit,
        };
        proof {
            unit.lists_its_source();
        }
        let mut instance = match self.instantiate(&unit, capabilities) {
            Err(error) => {
                return Err(error);
            },
            Ok(instance) => instance,
        };
        let outcome = self.execute(&mut instance, entry, args);
        instance.terminate();
        outcome
    }
}

impl Default for Sandbox {
    /// A sandbox with a runtime of its own, under the default limits.
    fn default() -> (sandbox: Self)
        ensures
            sandbox.runtime().fuel() == crate::runtime::DEFAULT_FUEL,
            sandbox.runtime().max_module_bytes() == crate::runtime::DEFAULT_MAX_MODULE_BYTES,
            sandbox.runtime().max_memory_bytes() == crate::runtime::DEFAULT_MAX_MEMORY_BYTES,
    {
        Self::new()
    }
}

} // verus!
