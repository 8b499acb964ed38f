//! The execution engine: compiles module bytes into validated units, within
//! the limits that the engine was made with.

use vstd::prelude::*;
use crate::engine::{
    accepted, compile_wasm, describe, engine_id, error_text, fueled_engine, module_engine,
    module_exports, module_imports, module_source, wasm_exports, wasm_imports,
};
use crate::instance::{Instance, MEMORY_EXPORT};
use crate::interface::{
    export_specs, import_specs, lookup, Export, ExportSpec, ExternSpec, Import, ImportSpec,
};
use crate::linker::{covers_import, CapabilitySet};
use crate::module::{Module, ModuleError, ModuleErrorSpec};
use crate::sandbox::SandboxError;
use wasmtime::Engine;
use wasmtime::Module as WasmModule;

verus! {

/// The fuel that a guest may use up in one call, where nothing else is asked for.
pub const DEFAULT_FUEL: u64 = 1_000_000_000;

/// The largest module, in bytes, that is compiled where nothing else is asked for.
pub const DEFAULT_MAX_MODULE_BYTES: usize = 16_777_216;

/// The size in bytes that a guest's linear memory may reach, where nothing
/// else is asked for.
pub const DEFAULT_MAX_MEMORY_BYTES: usize = 268_435_456;

/// The address space that is set aside for a linear memory beyond its own
/// size: none. A memory takes what the guest declares, so that an instance
/// costs what its guest uses.
pub const MEMORY_RESERVATION: u64 = 0;

/// The address space that a linear memory gets to grow into when it has to
/// move, in bytes.
pub const MEMORY_GROWTH_RESERVATION: u64 = 1_048_576;

/// The size of the unmapped region behind a linear memory, in bytes.
pub const MEMORY_GUARD: u64 = 65_536;

/// A validated module, ready to be instantiated any number of times. One is
/// only ever made by [`WasmRuntime::compile`], from bytes that the engine
/// accepted; its view is those bytes.
pub struct CompiledUnit {
    module: WasmModule,
    exports: Vec<Export>,
    imports: Vec<Import>,
}

impl View for CompiledUnit {
    type V = Seq<u8>;

    closed spec fn view(&self) -> Seq<u8> {
        module_source(self.module)
    }
}

impl CompiledUnit {
    /// What the unit exports, in the order of declaration.
    pub closed spec fn exported(&self) -> Seq<ExportSpec> {
        export_specs(self.exports@)
    }

    /// What the unit imports, in the order of declaration.
    pub closed spec fn imported(&self) -> Seq<ImportSpec> {
        import_specs(self.imports@)
    }

    /// The unit comes from bytes that its engine accepted, and lists what a
    /// module of those bytes exports and imports.
    pub closed spec fn wf(&self) -> bool {
        &&& accepted(self.engine_id(), self@)
        &&& self.exported() == wasm_exports(self@)
        &&& self.imported() == wasm_imports(self@)
    }

    /// What a unit lists is what the engine reads from the unit's bytes, and
    /// the unit's engine has accepted those bytes.
    pub proof fn lists_its_source(&self)
        requires
            self.wf(),
        ensures
            accepted(self.engine_id(), self@),
            self.exported() == wasm_exports(self@),
            self.imported() == wasm_imports(self@),
    {
    }

    /// The exports of the unit, in the order of declaration.
    pub fn exports(&self) -> (exports: &Vec<Export>)
        ensures
            export_specs(exports@) == self.exported(),
    {
        &self.exports
    }

    /// The imports of the unit, in the order of declaration.
    pub fn imports(&self) -> (imports: &Vec<Import>)
        ensures
            import_specs(imports@) == self.imported(),
    {
        &self.imports
    }

    /// The identity of the engine that compiled the unit.
    pub closed spec fn engine_id(&self) -> int {
        module_engine(self.module)
    }

    /// What ties the unit's engine to its code.
    pub(crate) proof fn engine_is_code_engine(&self)
        ensures
            self.engine_id() == module_engine(self.code_spec()),
    {
    }

    /// What ties the unit's view to its code.
    pub(crate) proof fn view_is_source(&self)
        ensures
            self@ == module_source(self.code_spec()),
    {
    }

    /// The compiled code that the unit holds.
    pub(crate) closed spec fn code_spec(&self) -> WasmModule {
        self.module
    }

    pub(crate) fn code(&self) -> (module: &WasmModule)
        ensures
            *module == self.code_spec(),
    {
        &self.module
    }
}

/// Reads the export list of a compiled module.
fn read_exports(module: &WasmModule) -> (exports: Vec<Export>)
    ensures
        export_specs(exports@) == wasm_exports(module_source(*module)),
{
    let entries = module_exports(module);
    let mut exports: Vec<Export> = Vec::new();
    let mut i: usize = 0;
    while i < entries.len()
        invariant
            i <= entries.len(),
            exports@.len() == i,
            entries@.len() == wasm_exports(module_source(*module)).len(),
            forall|j: int|
                0 <= j < entries@.len() ==> {
                    &&& (#[trigger] entries@[j]).0@ == wasm_exports(module_source(*module))[j].name
                    &&& crate::engine::extern_spec(entries@[j].1) == wasm_exports(
                        module_source(*module),
                    )[j].kind
                },
            forall|j: int|
                0 <= j < i ==> (#[trigger] exports@[j])@ == wasm_exports(module_source(*module))[j],
        decreases entries.len() - i,
    {
        let kind = describe(&entries[i].1);
        exports.push(Export { name: entries[i].0.clone(), kind });
        i += 1;
    }
    assert(export_specs(exports@) =~= wasm_exports(module_source(*module)));
    exports
}

/// Reads the import list of a compiled module.
fn read_imports(module: &WasmModule) -> (imports: Vec<Import>)
    ensures
        import_specs(imports@) == wasm_imports(module_source(*module)),
{
    let entries = module_imports(module);
    let mut imports: Vec<Import> = Vec::new();
    let mut i: usize = 0;
    while i < entries.len()
        invariant
            i <= entries.len(),
            imports@.len() == i,
            entries@.len() == wasm_imports(module_source(*module)).len(),
            forall|j: int|
                0 <= j < entries@.len() ==> {
                    &&& (#[trigger] entries@[j]).0@ == wasm_imports(
                        module_source(*module),
                    )[j].module
                    &&& entries@[j].1@ == wasm_imports(module_source(*module))[j].name
                    &&& crate::engine::extern_spec(entries@[j].2) == wasm_imports(
                        module_source(*module),
                    )[j].kind
                },
            forall|j: int|
                0 <= j < i ==> (#[trigger] imports@[j])@ == wasm_imports(module_source(*module))[j],
        decreases entries.len() - i,
    {
        let kind = describe(&entries[i].2);
        imports.push(Import { module: entries[i].0.clone(), name: entries[i].1.clone(), kind });
        i += 1;
    }
    assert(import_specs(imports@) =~= wasm_imports(module_source(*module)));
    imports
}

/// An engine with its limits: how large a module may be, how much fuel a
/// guest may use up in one call, and how far a guest's memory may grow.
/// Engines do not share anything; each runtime has its own.
pub struct WasmRuntime {
    engine: Engine,
    fuel: u64,
    max_module_bytes: usize,
    max_memory_bytes: usize,
}

impl WasmRuntime {
    /// The fuel that a guest gets for one call.
    pub closed spec fn fuel_spec(&self) -> u64 {
        self.fuel
    }

    /// The largest module, in bytes, that this runtime compiles.
    pub closed spec fn max_module_bytes_spec(&self) -> usize {
        self.max_module_bytes
    }

    /// The size in bytes that a guest's linear memory may reach.
    pub closed spec fn max_memory_bytes_spec(&self) -> usize {
        self.max_memory_bytes
    }

    /// The identity of this runtime's engine. Units and capability sets go
    /// together where they have the same.
    pub closed spec fn engine_id(&self) -> int {
        engine_id(self.engine)
    }

    /// Whether this runtime compiles a module of these bytes: the module is
    /// within the size limit, and this runtime's engine accepts it.
    pub open spec fn admits(&self, bytes: Seq<u8>) -> bool {
        bytes.len() <= self.max_module_bytes() && accepted(self.engine_id(), bytes)
    }

    /// A runtime with the default limits.
    pub fn new() -> (runtime: Self)
        ensures
            runtime.fuel() == DEFAULT_FUEL,
            runtime.max_module_bytes() == DEFAULT_MAX_MODULE_BYTES,
            runtime.max_memory_bytes() == DEFAULT_MAX_MEMORY_BYTES,
    {
        Self::with_limits(DEFAULT_FUEL, DEFAULT_MAX_MODULE_BYTES, DEFAULT_MAX_MEMORY_BYTES)
    }

    /// A runtime with the given limits: the fuel for one call, the largest
    /// module in bytes, and the size in bytes that a guest's memory may reach.
    pub fn with_limits(fuel: u64, max_module_bytes: usize, max_memory_bytes: usize) -> (runtime:
        Self)
        ensures
            runtime.fuel() == fuel,
            runtime.max_module_bytes() == max_module_bytes,
            runtime.max_memory_bytes() == max_memory_bytes,
    {
        let engine = fueled_engine(MEMORY_RESERVATION, MEMORY_GROWTH_RESERVATION, MEMORY_GUARD);
        Self { engine, fuel, max_module_bytes, max_memory_bytes }
    }

    /// The size in bytes that a guest's linear memory may reach.
    #[verifier::when_used_as_spec(max_memory_bytes_spec)]
    pub fn max_memory_bytes(&self) -> (limit: usize)
        ensures
            limit == self.max_memory_bytes(),
    {
        self.max_memory_bytes
    }

    /// The fuel that a guest gets for one call.
    #[verifier::when_used_as_spec(fuel_spec)]
    pub fn fuel(&self) -> (fuel: u64)
        ensures
            fuel == self.fuel(),
    {
        self.fuel
    }

    /// The largest module, in bytes, that this runtime compiles.
    #[verifier::when_used_as_spec(max_module_bytes_spec)]
    pub fn max_module_bytes(&self) -> (limit: usize)
        ensures
            limit == self.max_module_bytes(),
    {
        self.max_module_bytes
    }

    pub(crate) fn engine(&self) -> (engine: &Engine)
        ensures
            engine_id(*engine) == self.engine_id(),
    {
        &self.engine
    }

    /// Validates and compiles a module. It succeeds exactly on the bytes that
    /// this runtime admits; every failure is a compile error, and bytes that
    /// the engine does not accept never yield a unit. The unit's view is the
    /// bytes it was made from.
    pub fn compile(&self, module: &Module) -> (outcome: Result<CompiledUnit, ModuleError>)
        ensures
            outcome is Ok <==> self.admits(module@),
            outcome matches Ok(unit) ==> unit.wf() && unit@ == module@ && unit.engine_id()
                == self.engine_id(),
            outcome matches Err(error) ==> error is Compile,
            outcome matches Err(error) ==> module@.len() > self.max_module_bytes() ==> error@
                == ModuleErrorSpec::Compile("module exceeds the size limit"@),
    {
        let bytes = module.bytes();
        if bytes.len() > self.max_module_bytes {
            return Err(ModuleError::Compile("module exceeds the size limit".to_owned()));
        }
        match compile_wasm(&self.engine, bytes) {
            Ok(compiled) => {
                let exports = read_exports(&compiled);
                let imports = read_imports(&compiled);
                Ok(CompiledUnit { module: compiled, exports, imports })
            },
            Err(error) => Err(ModuleError::Compile(error_text(&error))),
        }
    }

    /// Instantiates `unit` with no capabilities at all: the guest can reach
    /// nothing on the host. A unit that imports anything is refused, as is a
    /// unit of another runtime, one whose start function fails, or one that
    /// declares more memory than the limit; every failure is an instantiation
    /// error, and no instance exists afterwards.
    pub fn instantiate(&self, unit: &CompiledUnit) -> (outcome: Result<Instance, ModuleError>)
        requires
            unit.wf(),
        ensures
            outcome is Ok ==> unit.imported().len() == 0 && unit.engine_id() == self.engine_id(),
            outcome matches Ok(instance) ==> (instance.has_memory() <==> lookup(
                unit.exported(),
                MEMORY_EXPORT@,
            ) == Some(ExternSpec::Memory)),
            outcome matches Ok(instance) ==> {
                &&& instance.wf()
                &&& !instance.terminated()
                &&& instance.exported() == unit.exported()
                &&& instance.fuel() == self.fuel()
                &&& instance.memory_limit() == self.max_memory_bytes()
            },
            outcome matches Err(error) ==> error is Instantiate,
    {
        let nothing = CapabilitySet::empty(self);
        match Instance::create(unit, &nothing, self.fuel, self.max_memory_bytes) {
            Ok(instance) => {
                proof {
                    if unit.imported().len() > 0 {
                        assert(covers_import(nothing@, unit.imported()[0]));
                    }
                }
                Ok(instance)
            },
            Err(SandboxError::Linker(reason)) => Err(ModuleError::Instantiate(reason)),
            Err(SandboxError::Execution(reason)) => Err(ModuleError::Instantiate(reason)),
            Err(other) => Err(ModuleError::Instantiate(other.message())),
        }
    }
}

impl Default for WasmRuntime {
    /// A runtime with the default limits.
    fn default() -> (runtime: Self)
        ensures
            runtime.fuel() == DEFAULT_FUEL,
            runtime.max_module_bytes() == DEFAULT_MAX_MODULE_BYTES,
            runtime.max_memory_bytes() == DEFAULT_MAX_MEMORY_BYTES,
    {
        Self::new()
    }
}

/// What a runtime makes of a module depends on the bytes alone. Two modules of
/// the same bytes are admitted or refused together by a runtime, and any two
/// units made from the same bytes are interchangeable: they have the same
/// view, the same exports and the same imports.
pub proof fn compile_is_deterministic(
    runtime: WasmRuntime,
    first: Module,
    second: Module,
    a: CompiledUnit,
    b: CompiledUnit,
)
    requires
        first@ == second@,
        a.wf(),
        b.wf(),
        a@ == first@,
        b@ == second@,
    ensures
        runtime.admits(first@) == runtime.admits(second@),
        a@ == b@,
        a.exported() == b.exported(),
        a.imported() == b.imported(),
{
}

} // verus!
