//! The engine boundary. Every call into `wasmtime` is made here, each behind a
//! function whose contract is taken on trust from the engine's documentation
//! and source. Nothing in this file is proved; everything outside it is.

use vstd::prelude::*;
use crate::interface::{lookup, ExportSpec, ExternKind, ExternSpec, ImportSpec};
use crate::linker::answer_guest;
use crate::value::{Signature, Value, ValueType};
use wasmtime::Error as WasmError;
use wasmtime::Instance as WasmInstance;
use wasmtime::Module as WasmModule;
use wasmtime::{
    Engine, ExternType, Func, FuncType, Linker, Memory, Store, StoreLimits, Val, ValType,
};

verus! {

/// `wasmtime::Engine`: a compilation and execution context.
#[verifier::external_type_specification]
#[verifier::external_body]
pub struct ExEngine(Engine);

/// `wasmtime::Module`: validated, compiled code.
#[verifier::external_type_specification]
#[verifier::external_body]
pub struct ExWasmModule(WasmModule);

/// `wasmtime::Store`: the owner of everything that lives at run time.
#[verifier::external_type_specification]
#[verifier::external_body]
#[verifier::reject_recursive_types(T)]
pub struct ExStore<T: 'static>(Store<T>);

/// `wasmtime::StoreLimits`: the bounds that a store holds its guests to.
#[verifier::external_type_specification]
#[verifier::external_body]
pub struct ExStoreLimits(StoreLimits);

/// `wasmtime::Linker`: named host definitions, kept for instantiation.
#[verifier::external_type_specification]
#[verifier::external_body]
#[verifier::reject_recursive_types(T)]
pub struct ExLinker<T>(Linker<T>);

/// `wasmtime::Instance`: a handle to an instantiated module inside a store.
#[verifier::external_type_specification]
#[verifier::external_body]
pub struct ExWasmInstance(WasmInstance);

/// `wasmtime::Func`: a handle to a function inside a store.
#[verifier::external_type_specification]
#[verifier::external_body]
pub struct ExFunc(Func);

/// `wasmtime::Memory`: a handle to a linear memory inside a store.
#[verifier::external_type_specification]
#[verifier::external_body]
pub struct ExMemory(Memory);

/// `wasmtime::Val`: a run-time value of the engine.
#[verifier::external_type_specification]
#[verifier::external_body]
pub struct ExVal(Val);

/// `wasmtime::ExternType`: the type of an export or an import.
#[verifier::external_type_specification]
#[verifier::external_body]
pub struct ExExternType(ExternType);

/// `wasmtime::Error`: why the engine refused or stopped.
#[verifier::external_type_specification]
#[verifier::external_body]
pub struct ExWasmError(WasmError);

/// Whether `Module::new` accepts `bytes` as a module on the engine of the
/// given identity. The answer depends on the engine, since an engine's
/// configuration decides which features a module may use.
pub uninterp spec fn accepted(engine: int, bytes: Seq<u8>) -> bool;

/// The identity of an engine. Clones of an engine share it.
pub uninterp spec fn engine_id(engine: Engine) -> int;

/// The bytes that a compiled module was made from.
pub uninterp spec fn module_source(module: WasmModule) -> Seq<u8>;

/// The identity of the engine that a compiled module belongs to.
pub uninterp spec fn module_engine(module: WasmModule) -> int;

/// What `Module::exports` yields for a module made from `bytes`, in order.
pub uninterp spec fn wasm_exports(bytes: Seq<u8>) -> Seq<ExportSpec>;

/// What `Module::imports` yields for a module made from `bytes`, in order.
pub uninterp spec fn wasm_imports(bytes: Seq<u8>) -> Seq<ImportSpec>;

/// What an `ExternType` says, in the library's terms.
pub uninterp spec fn extern_spec(ty: ExternType) -> ExternSpec;

/// The scalar that a `Val` holds; `None` for a vector or a reference.
pub uninterp spec fn val_spec(val: Val) -> Option<Value>;

/// The namespace and name of every definition that a linker holds.
pub uninterp spec fn linker_names(linker: Linker<StoreLimits>) -> Set<(Seq<char>, Seq<char>)>;

/// The identity of the engine that a linker was made for.
pub uninterp spec fn linker_engine(linker: Linker<StoreLimits>) -> int;

/// The identity of a store.
pub uninterp spec fn store_id(store: Store<StoreLimits>) -> int;

/// The fuel that a store has left, as `Store::get_fuel` gives it.
pub uninterp spec fn store_fuel(store: Store<StoreLimits>) -> u64;

/// The size in bytes that a store lets a linear memory reach: the
/// `memory_size` of the limits that it was made with.
pub uninterp spec fn store_memory_limit(store: Store<StoreLimits>) -> usize;

/// The bytes of the module that an instance was made from.
pub uninterp spec fn instance_source(instance: WasmInstance) -> Seq<u8>;

/// The identity of the store that owns an instance.
pub uninterp spec fn instance_store(instance: WasmInstance) -> int;

/// The identity of the store that owns a function.
pub uninterp spec fn func_store(func: Func) -> int;

/// The identity of the store that owns a memory.
pub uninterp spec fn memory_store(memory: Memory) -> int;

/// The bytes that a linear memory holds, as `Memory::data` shows them.
pub uninterp spec fn memory_data(store: Store<StoreLimits>, memory: Memory) -> Seq<u8>;

/// What no operation on a store changes: its identity and its memory limit.
pub open spec fn same_store(before: Store<StoreLimits>, after: Store<StoreLimits>) -> bool {
    store_id(after) == store_id(before) && store_memory_limit(after) == store_memory_limit(before)
}

/// What an operation that runs no guest code leaves as it was: the store's
/// identity, its memory limit and its fuel.
pub open spec fn same_budget(before: Store<StoreLimits>, after: Store<StoreLimits>) -> bool {
    same_store(before, after) && store_fuel(after) == store_fuel(before)
}

/// `Engine::new`, on a `Config` with `consume_fuel(true)` and with the given
/// `memory_reservation`, `memory_reservation_for_growth` and
/// `memory_guard_size`: execution on this engine stops with a trap when a
/// store's fuel is used up, and a linear memory takes the address space that
/// these three ask for. Where the engine refuses the configuration,
/// `Engine::default()` takes its place; a store of that engine takes no fuel,
/// so [`instantiate`] then fails. Nothing is claimed of the result.
#[verifier::external_body]
pub(crate) fn fueled_engine(reservation: u64, growth: u64, guard: u64) -> (engine: Engine) {
    let mut config = wasmtime::Config::new();
    config.consume_fuel(true);
    config.memory_reservation(reservation);
    config.memory_reservation_for_growth(growth);
    config.memory_guard_size(guard);
    Engine::new(&config).unwrap_or_default()
}

/// `Module::new`. Claims that whether it succeeds depends on the engine and
/// the bytes alone (validation and compilation read nothing else), and that the
/// module it returns was made from exactly these bytes and belongs to this
/// engine.
#[verifier::external_body]
pub(crate) fn compile_wasm(engine: &Engine, bytes: &[u8]) -> (outcome: Result<
    WasmModule,
    WasmError,
>)
    ensures
        outcome is Ok <==> accepted(engine_id(*engine), bytes@),
        outcome matches Ok(module) ==> module_source(module) == bytes@,
        outcome matches Ok(module) ==> module_engine(module) == engine_id(*engine),
{
    WasmModule::new(engine, bytes)
}

/// `Module::exports`, collected. Claims that the items are those of the
/// module's export section, in declaration order, each with its name and type.
#[verifier::external_body]
pub(crate) fn module_exports(module: &WasmModule) -> (entries: Vec<(String, ExternType)>)
    ensures
        entries@.len() == wasm_exports(module_source(*module)).len(),
        forall|i: int|
            0 <= i < entries@.len() ==> {
                &&& (#[trigger] entries@[i]).0@ == wasm_exports(module_source(*module))[i].name
                &&& extern_spec(entries@[i].1) == wasm_exports(module_source(*module))[i].kind
            },
{
    module.exports().map(|e| (e.name().to_string(), e.ty())).collect()
}

/// `Module::imports`, collected. Claims that the items are those of the
/// module's import section, in declaration order, each with its namespace, name
/// and type.
#[verifier::external_body]
pub(crate) fn module_imports(module: &WasmModule) -> (entries: Vec<(String, String, ExternType)>)
    ensures
        entries@.len() == wasm_imports(module_source(*module)).len(),
        forall|i: int|
            0 <= i < entries@.len() ==> {
                &&& (#[trigger] entries@[i]).0@ == wasm_imports(module_source(*module))[i].module
                &&& entries@[i].1@ == wasm_imports(module_source(*module))[i].name
                &&& extern_spec(entries@[i].2) == wasm_imports(module_source(*module))[i].kind
            },
{
    module.imports().map(|i| (i.module().to_string(), i.name().to_string(), i.ty())).collect()
}

/// Reads an `ExternType`: its variant, and for a function `FuncType::params`
/// and `FuncType::results`, each type by its variant. Claims only that the
/// result is that reading.
#[verifier::external_body]
pub(crate) fn describe(ty: &ExternType) -> (kind: ExternKind)
    ensures
        kind@ == extern_spec(*ty),
{
    let plain = |t: ValType| match t {
        ValType::I32 => ValueType::I32,
        ValType::I64 => ValueType::I64,
        ValType::F32 => ValueType::F32,
        ValType::F64 => ValueType::F64,
        ValType::V128 => ValueType::V128,
        ValType::Ref(_) => ValueType::Reference,
    };
    match ty {
        ExternType::Func(f) => ExternKind::Function(Signature { params: f.params().map(plain).collect(), results: f.results().map(plain).collect() }),
        ExternType::Global(_) => ExternKind::Global,
        ExternType::Table(_) => ExternKind::Table,
        ExternType::Memory(_) => ExternKind::Memory,
        ExternType::Tag(_) => ExternKind::Tag,
    }
}

/// Makes the `Val` that holds a scalar: the variant of the same name, with the
/// same bits.
#[verifier::external_body]
pub(crate) fn to_engine(value: Value) -> (val: Val)
    ensures
        val_spec(val) == Some(value),
{
    match value {
        Value::I32(x) => Val::I32(x),
        Value::I64(x) => Val::I64(x),
        Value::F32(bits) => Val::F32(bits),
        Value::F64(bits) => Val::F64(bits),
    }
}

/// Reads the scalar that a `Val` holds: the variant of the same name, with the
/// same bits, and `None` for every other variant.
#[verifier::external_body]
pub(crate) fn from_engine(val: &Val) -> (value: Option<Value>)
    ensures
        value == val_spec(*val),
{
    match val {
        Val::I32(x) => Some(Value::I32(*x)),
        Val::I64(x) => Some(Value::I64(*x)),
        Val::F32(bits) => Some(Value::F32(*bits)),
        Val::F64(bits) => Some(Value::F64(*bits)),
        _ => None,
    }
}

/// `Linker::new`. Claims that a new linker holds no definition and belongs to
/// this engine.
#[verifier::external_body]
pub(crate) fn new_linker(engine: &Engine) -> (linker: Linker<StoreLimits>)
    ensures
        linker_names(linker) == Set::<(Seq<char>, Seq<char>)>::empty(),
        linker_engine(linker) == engine_id(*engine),
{
    Linker::new(engine)
}

/// `Linker::func_new`, with a `FuncType` made by `FuncType::new` for the
/// linker's own engine. Asks for a signature of scalars, the only types for
/// which the engine's type is made here. Claims that the definition is refused
/// exactly when the linker already holds one of that namespace and name
/// (shadowing is off in a linker made by [`new_linker`]), that it is added
/// otherwise, and that the linker stays with its engine. When the guest calls
/// the definition, the engine's values go to [`answer_guest`], which decides
/// what `host` is given and what comes back, and its answer fills the results.
#[verifier::external_body]
pub(crate) fn define_host<F>(
    linker: &mut Linker<StoreLimits>,
    namespace: &str,
    name: &str,
    signature: Signature,
    host: F,
) -> (outcome: Result<(), WasmError>) where
    F: Fn(Vec<Value>) -> Option<Value> + Send + Sync + 'static,

    requires
        signature@.is_scalar(),
        forall|args: Vec<Value>| signature@.accepts(args@) ==> host.requires((args,)),
    ensures
        outcome is Ok <==> !linker_names(*old(linker)).contains((namespace@, name@)),
        outcome is Ok ==> linker_names(*final(linker)) == linker_names(*old(linker)).insert(
            (namespace@, name@),
        ),
        outcome is Err ==> linker_names(*final(linker)) == linker_names(*old(linker)),
        linker_engine(*final(linker)) == linker_engine(*old(linker)),
{
    let plain = |t: &ValueType| match t {
        ValueType::I32 => ValType::I32,
        ValueType::I64 => ValType::I64,
        ValueType::F32 => ValType::F32,
        ValueType::F64 => ValType::F64,
        _ => ValType::V128,
    };
    let ty = FuncType::new(linker.engine(), signature.params.iter().map(plain), signature.results.iter().map(plain));
    linker.func_new(namespace, name, ty, move |_, params, results| {
        let reply = answer_guest(&signature, &host, params.iter().map(from_engine).collect());
        results.iter_mut().zip(reply).for_each(|(slot, value)| *slot = to_engine(value));
        Ok(())
    }).map(|_| ())
}

/// `Engine::same`, on `Linker::engine` and `Module::engine`.
#[verifier::external_body]
pub(crate) fn same_engine(linker: &Linker<StoreLimits>, module: &WasmModule) -> (same: bool)
    ensures
        same == (linker_engine(*linker) == module_engine(*module)),
{
    Engine::same(linker.engine(), module.engine())
}

/// `Store::new` on the linker's engine, with `StoreLimits` of the given
/// `memory_size` installed by `Store::limiter`; `Store::set_fuel`; then
/// `Linker::instantiate` in that store. Asks that linker and module belong to
/// one engine, as the engine does. Claims that the instance it returns is owned
/// by the store it returns and was made from the module's bytes, that the store
/// has the given memory limit, and that it has no more fuel left than it was
/// given. Whether it succeeds is left open: that depends on the definitions, on
/// the module's start function, on the fuel and on the memory that the module
/// declares.
#[verifier::external_body]
pub(crate) fn instantiate(
    linker: &Linker<StoreLimits>,
    module: &WasmModule,
    fuel: u64,
    memory_limit: usize,
) -> (outcome: Result<(Store<StoreLimits>, WasmInstance), WasmError>)
    requires
        linker_engine(*linker) == module_engine(*module),
    ensures
        outcome matches Ok((store, instance)) ==> {
            &&& instance_store(instance) == store_id(store)
            &&& instance_source(instance) == module_source(*module)
            &&& store_memory_limit(store) == memory_limit
            &&& store_fuel(store) <= fuel
        },
{
    let limits = wasmtime::StoreLimitsBuilder::new().memory_size(memory_limit).build();
    let mut store = Store::new(linker.engine(), limits);
    store.limiter(|limits| limits);
    store.set_fuel(fuel)?;
    let instance = linker.instantiate(&mut store, module)?;
    Ok((store, instance))
}

/// `Store::set_fuel`. Claims that the store then has exactly the given fuel,
/// or, where it takes none, what it had. Whether the store takes fuel is left
/// open.
#[verifier::external_body]
pub(crate) fn refuel(store: &mut Store<StoreLimits>, fuel: u64) -> (outcome: Result<(), WasmError>)
    ensures
        same_store(*old(store), *final(store)),
        outcome is Ok ==> store_fuel(*final(store)) == fuel,
        outcome is Err ==> store_fuel(*final(store)) == store_fuel(*old(store)),
{
    store.set_fuel(fuel)
}

/// `Instance::get_func`. Asks that the store owns the instance. Claims that
/// the store keeps its identity, limit and fuel, and owns the function that is
/// returned.
#[verifier::external_body]
pub(crate) fn export_func(store: &mut Store<StoreLimits>, instance: &WasmInstance, name: &str) -> (func:
    Option<Func>)
    requires
        instance_store(*instance) == store_id(*old(store)),
    ensures
        same_budget(*old(store), *final(store)),
        func matches Some(f) ==> func_store(f) == store_id(*old(store)),
{
    instance.get_func(store, name)
}

/// `Instance::get_memory`. Asks that the store owns the instance. Claims that
/// the store keeps its identity, limit and fuel and owns the memory that is
/// returned, and that a memory is returned exactly when the instance's module
/// exports a memory under that name. (A shared memory would not be returned,
/// but none exists: `Config::shared_memory` is off in every engine made here,
/// and instantiation fails where a module declares one.)
#[verifier::external_body]
pub(crate) fn export_memory(store: &mut Store<StoreLimits>, instance: &WasmInstance, name: &str) -> (memory:
    Option<Memory>)
    requires
        instance_store(*instance) == store_id(*old(store)),
    ensures
        same_budget(*old(store), *final(store)),
        memory matches Some(m) ==> memory_store(m) == store_id(*old(store)),
        memory is Some <==> lookup(wasm_exports(instance_source(*instance)), name@) == Some(
            ExternSpec::Memory,
        ),
{
    instance.get_memory(store, name)
}

/// `Func::call`, with room for `result_count` results. Asks that the store
/// owns the function. Claims that the store keeps its identity and limit,
/// that its fuel does not grow, and that a successful call fills every result.
/// What the guest computes, and whether it traps, is left open.
#[verifier::external_body]
pub(crate) fn call_func(store: &mut Store<StoreLimits>, func: &Func, args: &Vec<Val>, result_count: usize) -> (outcome:
    Result<Vec<Val>, WasmError>)
    requires
        func_store(*func) == store_id(*old(store)),
    ensures
        same_store(*old(store), *final(store)),
        store_fuel(*final(store)) <= store_fuel(*old(store)),
        outcome matches Ok(results) ==> results@.len() == result_count,
{
    let mut results = vec![Val::I32(0); result_count];
    func.call(store, args, &mut results)?;
    Ok(results)
}

/// `Memory::data_size`. Asks that the store owns the memory. Claims that the
/// result is the present length of the memory in bytes.
#[verifier::external_body]
pub(crate) fn memory_size(store: &Store<StoreLimits>, memory: &Memory) -> (size: usize)
    requires
        memory_store(*memory) == store_id(*store),
    ensures
        size == memory_data(*store, *memory).len(),
{
    memory.data_size(store)
}

/// `Memory::read`, into a new buffer of `length` bytes. Asks that the store
/// owns the memory and that the range lies inside it. Claims that the buffer
/// then holds the bytes of that range.
#[verifier::external_body]
pub(crate) fn memory_read(store: &Store<StoreLimits>, memory: &Memory, offset: usize, length: usize) -> (data:
    Option<Vec<u8>>)
    requires
        memory_store(*memory) == store_id(*store),
        offset + length <= memory_data(*store, *memory).len(),
    ensures
        data is Some,
        data matches Some(bytes) ==> bytes@ == memory_data(*store, *memory).subrange(
            offset as int,
            offset + length,
        ),
{
    let mut buffer = vec![0u8; length];
    memory.read(store, offset, &mut buffer).ok().map(|_| buffer)
}

/// `Memory::write`. Asks that the store owns the memory. Claims what the
/// engine documents: the write succeeds exactly when the range lies inside the
/// memory; it then replaces the bytes of that range and no others; a refused
/// write changes nothing; the store keeps its identity, limit and fuel.
#[verifier::external_body]
pub(crate) fn memory_write(store: &mut Store<StoreLimits>, memory: &Memory, offset: usize, data: &[u8]) -> (written:
    bool)
    requires
        memory_store(*memory) == store_id(*old(store)),
    ensures
        same_budget(*old(store), *final(store)),
        written <==> offset + data@.len() <= memory_data(*old(store), *memory).len(),
        written ==> memory_data(*final(store), *memory) == memory_data(
            *old(store),
            *memory,
        ).subrange(0, offset as int) + data@ + memory_data(*old(store), *memory).subrange(
            offset + data@.len(),
            memory_data(*old(store), *memory).len() as int,
        ),
        !written ==> memory_data(*final(store), *memory) == memory_data(*old(store), *memory),
{
    memory.write(store, offset, data).is_ok()
}

/// The engine's own words for an error, as `Display` gives them.
#[verifier::external_body]
pub(crate) fn error_text(error: &WasmError) -> (text: String) {
    error.to_string()
}

} // verus!
