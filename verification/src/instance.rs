//! A live instance: one compiled unit bound to one capability set, with a
//! memory and a state of its own.

use vstd::prelude::*;
use crate::engine::{
    call_func, error_text, export_func, export_memory, from_engine, instance_store, instantiate,
    memory_data, memory_read, memory_size, memory_store, memory_write, refuel, same_engine,
    store_fuel, store_id, store_memory_limit, to_engine, val_spec,
};
use crate::interface::{
    copy_exports, export_specs, exports_memory, lookup, Export, ExportSpec, ExternSpec,
};
use crate::linker::{covers, CapabilitySet};
use crate::memory::{check_access, in_bounds, overwrite};
use crate::runtime::CompiledUnit;
use crate::sandbox::{SandboxError, SandboxErrorSpec};
use crate::value::{Value, ValueType};
use wasmtime::Instance as WasmInstance;
use wasmtime::{Memory, Store, StoreLimits, Val};

verus! {

/// The export under which a guest offers its linear memory.
pub const MEMORY_EXPORT: &'static str = "memory";

/// A running realization of a compiled unit. It owns its store, and with it
/// its memory and all guest state; nothing of it is shared with another
/// instance. Every operation takes the instance by `&mut` or `&`, so a call
/// runs to its end before the next operation begins, and a host function has
/// no way to reach the instance that is calling it.
///
/// An instance is live from its creation until [`Instance::terminate`]. A
/// terminated instance has given up its store; every operation on it fails.
pub struct Instance {
    store: Option<Store<StoreLimits>>,
    handle: WasmInstance,
    memory: Option<Memory>,
    exports: Vec<Export>,
    fuel: u64,
    memory_limit: usize,
}

/// Where an instance is in its life. Between its creation and its teardown an
/// instance is idle whenever it can be observed: a call holds the instance
/// exclusively from its start to its end, so the time of execution is never
/// seen from outside.
#[derive(Clone, Copy, Debug, PartialEq, Eq, Structural)]
pub enum InstanceState {
    /// Ready for the next call.
    Idle,
    /// Torn down; every operation fails.
    Terminated,
}

/// A call that is ready to be made: the name of the exported function, the
/// arguments it is given, and the types of the results it is to return.
#[derive(Debug)]
pub struct CallPlan {
    pub name: String,
    pub args: Vec<Value>,
    pub results: Vec<ValueType>,
}

/// What one call into the engine came to: the raw results, of which those that
/// are no scalars are `None`, or the engine's words for the failure.
pub enum CallOutcome {
    Returned(Vec<Option<Value>>),
    Failed(String),
}

impl Instance {
    /// The store owns the instance and its memory; the memory is the one that
    /// the unit exports; the store holds the guest to the memory limit of the
    /// instance and has no more fuel than the instance grants for one call.
    pub closed spec fn wf(&self) -> bool {
        &&& self.memory is Some <==> lookup(self.exported(), MEMORY_EXPORT@) == Some(
            ExternSpec::Memory,
        )
        &&& self.store matches Some(store) ==> {
            &&& instance_store(self.handle) == store_id(store)
            &&& self.memory matches Some(memory) ==> memory_store(memory) == store_id(store)
            &&& store_memory_limit(store) == self.memory_limit
            &&& store_fuel(store) <= self.fuel
        }
    }

    /// An instance has a memory exactly where its unit exports one under the
    /// name by which the bridge looks for it.
    pub proof fn memory_is_exported(&self)
        requires
            self.wf(),
        ensures
            self.has_memory() <==> lookup(self.exported(), MEMORY_EXPORT@) == Some(
                ExternSpec::Memory,
            ),
    {
    }

    /// The fuel that the guest has left; none once the instance is torn down.
    pub closed spec fn fuel_left(&self) -> u64 {
        match self.store {
            Some(store) => store_fuel(store),
            None => 0,
        }
    }

    /// The size in bytes that the engine lets the guest's memory reach; the
    /// limit of the instance, as long as the instance is live.
    pub closed spec fn enforced_memory_limit(&self) -> usize {
        match self.store {
            Some(store) => store_memory_limit(store),
            None => self.memory_limit,
        }
    }

    /// The engine holds the guest to the limits of the instance: the guest
    /// never has more fuel left than one call is granted, and its memory is
    /// held to the instance's memory limit.
    pub proof fn limits_are_enforced(&self)
        requires
            self.wf(),
        ensures
            self.fuel_left() <= self.fuel(),
            self.enforced_memory_limit() == self.memory_limit(),
    {
    }

    /// Whether the instance was torn down.
    pub closed spec fn terminated(&self) -> bool {
        self.store is None
    }

    /// What the instance exports: what its unit exports.
    pub closed spec fn exported(&self) -> Seq<ExportSpec> {
        export_specs(self.exports@)
    }

    /// Whether the guest offers a linear memory.
    pub closed spec fn has_memory(&self) -> bool {
        self.memory is Some
    }

    /// The bytes of the guest's linear memory as they are now; empty where
    /// the instance has no memory or was torn down.
    pub closed spec fn memory(&self) -> Seq<u8> {
        match (self.store, self.memory) {
            (Some(store), Some(memory)) => memory_data(store, memory),
            _ => Seq::empty(),
        }
    }

    /// The fuel that the guest gets for one call.
    pub closed spec fn fuel_spec(&self) -> u64 {
        self.fuel
    }

    /// The size in bytes beyond which the guest's memory is not allowed to grow.
    pub closed spec fn memory_limit_spec(&self) -> usize {
        self.memory_limit
    }

    /// Instantiates `unit` under `capabilities`, with `fuel` for the module's
    /// start function and for each later call, and with `memory_limit` as the
    /// size that the engine lets a linear memory reach.
    ///
    /// Every import of the unit must be answered by the capability set;
    /// where one is not, or where unit and set belong to different engines,
    /// the result is a linker error and the engine is not asked. Where the
    /// engine then fails to bring the module to life (its start function
    /// traps or runs out of fuel, or it declares more memory than the limit),
    /// the result is an execution error. Either way no instance exists
    /// afterwards.
    pub(crate) fn create(
        unit: &CompiledUnit,
        capabilities: &CapabilitySet,
        fuel: u64,
        memory_limit: usize,
    ) -> (outcome: Result<Instance, SandboxError>)
        requires
            unit.wf(),
            capabilities.wf(),
        ensures
            outcome is Ok ==> covers(capabilities@, unit.imported()) && capabilities.engine_id()
                == unit.engine_id(),
            outcome matches Ok(instance) ==> {
                &&& instance.wf()
                &&& !instance.terminated()
                &&& instance.exported() == unit.exported()
                &&& instance.fuel() == fuel
                &&& instance.memory_limit() == memory_limit
                &&& instance.has_memory() <==> lookup(unit.exported(), MEMORY_EXPORT@) == Some(
                    ExternSpec::Memory,
                )
            },
            outcome matches Err(error) ==> (error is Linker <==> !(covers(
                capabilities@,
                unit.imported(),
            ) && capabilities.engine_id() == unit.engine_id())),
            outcome matches Err(error) ==> error is Linker || error is Execution,
    {
        proof {
            capabilities.engine_is_linker_engine();
            unit.engine_is_code_engine();
            unit.view_is_source();
            unit.lists_its_source();
        }
        if !same_engine(capabilities.definitions(), unit.code()) {
            return Err(
                SandboxError::Linker(
                    "the unit and the capability set belong to different engines".to_owned(),
                ),
            );
        }
        let imports = unit.imports();
        match capabilities.first_uncovered(imports) {
            Some(k) => {
                return Err(
                    SandboxError::Linker(
                        "no capability answers the import ".to_owned().concat(
                            imports[k].name.as_str(),
                        ),
                    ),
                );
            },
            None => {},
        }
        match instantiate(capabilities.definitions(), unit.code(), fuel, memory_limit) {
            Ok((store, handle)) => {
                let mut store = store;
                let exports = copy_exports(unit.exports());
                let memory = if exports_memory(&exports, MEMORY_EXPORT) {
                    export_memory(&mut store, &handle, MEMORY_EXPORT)
                } else {
                    None
                };
                Ok(Instance { store: Some(store), handle, memory, exports, fuel, memory_limit })
            },
            Err(error) => Err(SandboxError::Execution(error_text(&error))),
        }
    }

    /// Where the instance is in its life.
    pub open spec fn state_spec(&self) -> InstanceState {
        if self.terminated() {
            InstanceState::Terminated
        } else {
            InstanceState::Idle
        }
    }

    /// Where the instance is in its life.
    #[verifier::when_used_as_spec(state_spec)]
    pub fn state(&self) -> (state: InstanceState)
        ensures
            state == self.state(),
    {
        if self.store.is_none() {
            InstanceState::Terminated
        } else {
            InstanceState::Idle
        }
    }

    /// Whether the instance was torn down.
    #[verifier::when_used_as_spec(terminated)]
    pub fn is_terminated(&self) -> (terminated: bool)
        ensures
            terminated == self.terminated(),
    {
        self.store.is_none()
    }

    /// The fuel that the guest gets for one call.
    #[verifier::when_used_as_spec(fuel_spec)]
    pub fn fuel(&self) -> (fuel: u64)
        ensures
            fuel == self.fuel(),
    {
        self.fuel
    }

    /// The size in bytes beyond which the guest's memory is not allowed to grow.
    #[verifier::when_used_as_spec(memory_limit_spec)]
    pub fn memory_limit(&self) -> (limit: usize)
        ensures
            limit == self.memory_limit(),
    {
        self.memory_limit
    }

    /// What the instance exports, in the order of declaration.
    pub fn exports(&self) -> (exports: &Vec<Export>)
        ensures
            export_specs(exports@) == self.exported(),
    {
        &self.exports
    }

    /// Tears the instance down: its store, and with it the guest's memory and
    /// state, is given up. Nothing can be done with the instance afterwards.
    pub fn terminate(&mut self)
        requires
            old(self).wf(),
        ensures
            final(self).terminated(),
            final(self).wf(),
            final(self).exported() == old(self).exported(),
            final(self).has_memory() == old(self).has_memory(),
            final(self).fuel() == old(self).fuel(),
            final(self).memory_limit() == old(self).memory_limit(),
    {
        self.store = None;
    }

    /// The size of the guest's memory in bytes, as it is now. The guest may
    /// grow its memory in any call, so a size is only good until the next one.
    pub fn memory_size(&self) -> (outcome: Result<usize, SandboxError>)
        requires
            self.wf(),
        ensures
            outcome is Ok <==> !self.terminated() && self.has_memory(),
            outcome matches Ok(size) ==> size == self.memory().len(),
            outcome matches Err(error) ==> error@ == (if self.terminated() {
                SandboxErrorSpec::Execution("instance terminated"@)
            } else {
                SandboxErrorSpec::Execution("memory not found"@)
            }),
    {
        match &self.store {
            None => Err(SandboxError::Execution("instance terminated".to_owned())),
            Some(store) => match &self.memory {
                None => Err(SandboxError::Execution("memory not found".to_owned())),
                Some(memory) => Ok(memory_size(store, memory)),
            },
        }
    }

    /// Reads `length` bytes at `offset` from the guest's memory. The range is
    /// held against the size that the memory has at this moment; a range that
    /// does not lie inside it is refused with `OutOfBounds`, and nothing is
    /// read.
    pub fn read(&self, offset: usize, length: usize) -> (outcome: Result<Vec<u8>, SandboxError>)
        requires
            self.wf(),
        ensures
            outcome is Ok <==> !self.terminated() && self.has_memory() && in_bounds(
                self.memory().len(),
                offset as nat,
                length as nat,
            ),
            outcome matches Ok(data) ==> data@ == self.memory().subrange(
                offset as int,
                offset + length,
            ),
            outcome matches Err(error) ==> error@ == (if self.terminated() {
                SandboxErrorSpec::Execution("instance terminated"@)
            } else if !self.has_memory() {
                SandboxErrorSpec::Execution("memory not found"@)
            } else {
                SandboxErrorSpec::OutOfBounds
            }),
    {
        match &self.store {
            None => Err(SandboxError::Execution("instance terminated".to_owned())),
            Some(store) => match &self.memory {
                None => Err(SandboxError::Execution("memory not found".to_owned())),
                Some(memory) => {
                    let size = memory_size(store, memory);
                    match check_access(size, offset, length) {
                        Err(error) => Err(error),
                        Ok(()) => match memory_read(store, memory, offset, length) {
                            Some(data) => Ok(data),
                            None => Err(SandboxError::OutOfBounds),
                        },
                    }
                },
            },
        }
    }

    /// Writes `bytes` at `offset` into the guest's memory and returns the
    /// offset. The range is held against the size that the memory has at this
    /// moment; the memory is never grown to make room. A write that does not
    /// lie inside the memory is refused with `OutOfBounds` and leaves every
    /// byte as it was.
    pub fn write(&mut self, offset: usize, bytes: &[u8]) -> (outcome: Result<usize, SandboxError>)
        requires
            old(self).wf(),
        ensures
            final(self).wf(),
            final(self).terminated() == old(self).terminated(),
            final(self).exported() == old(self).exported(),
            final(self).has_memory() == old(self).has_memory(),
            final(self).fuel() == old(self).fuel(),
            final(self).memory_limit() == old(self).memory_limit(),
            outcome is Ok <==> !old(self).terminated() && old(self).has_memory() && in_bounds(
                old(self).memory().len(),
                offset as nat,
                bytes@.len(),
            ),
            outcome matches Ok(at) ==> at == offset && final(self).memory() == overwrite(
                old(self).memory(),
                offset as int,
                bytes@,
            ),
            outcome is Err ==> final(self).memory() == old(self).memory(),
            outcome matches Err(error) ==> error@ == (if old(self).terminated() {
                SandboxErrorSpec::Execution("instance terminated"@)
            } else if !old(self).has_memory() {
                SandboxErrorSpec::Execution("memory not found"@)
            } else {
                SandboxErrorSpec::OutOfBounds
            }),
    {
        match self.store.take() {
            None => Err(SandboxError::Execution("instance terminated".to_owned())),
            Some(store) => {
                let mut store = store;
                let outcome = match &self.memory {
                    None => Err(SandboxError::Execution("memory not found".to_owned())),
                    Some(memory) => {
                        let size = memory_size(&store, memory);
                        match check_access(size, offset, bytes.len()) {
                            Err(error) => Err(error),
                            Ok(()) => {
                                if memory_write(&mut store, memory, offset, bytes) {
                                    Ok(offset)
                                } else {
                                    Err(SandboxError::OutOfBounds)
                                }
                            },
                        }
                    },
                };
                self.store = Some(store);
                outcome
            },
        }
    }

    /// Makes the call that `plan` describes, on fresh fuel: the function of
    /// that name, with those arguments, and room for as many results as the
    /// plan lists. Whatever the engine answers is handed back as it came: the
    /// instance decides nothing here.
    pub(crate) fn invoke(&mut self, plan: &CallPlan) -> (outcome: CallOutcome)
        requires
            old(self).wf(),
            !old(self).terminated(),
        ensures
            final(self).wf(),
            !final(self).terminated(),
            final(self).exported() == old(self).exported(),
            final(self).has_memory() == old(self).has_memory(),
            final(self).fuel() == old(self).fuel(),
            final(self).memory_limit() == old(self).memory_limit(),
            outcome matches CallOutcome::Returned(values) ==> values@.len() == plan.results@.len(),
    {
        match self.store.take() {
            None => CallOutcome::Failed("instance terminated".to_owned()),
            Some(store) => {
                let mut store = store;
                let outcome = match refuel(&mut store, self.fuel) {
                    Err(error) => CallOutcome::Failed(error_text(&error)),
                    Ok(()) => match export_func(&mut store, &self.handle, plan.name.as_str()) {
                        None => CallOutcome::Failed(
                            "the engine does not know the function".to_owned(),
                        ),
                        Some(func) => {
                            let params = engine_values(plan.args.as_slice());
                            match call_func(&mut store, &func, &params, plan.results.len()) {
                                Ok(results) => CallOutcome::Returned(scalars(&results)),
                                Err(error) => CallOutcome::Failed(error_text(&error)),
                            }
                        },
                    },
                };
                self.store = Some(store);
                outcome
            },
        }
    }
}

/// The engine's values for `args`, one for one.
fn engine_values(args: &[Value]) -> (vals: Vec<Val>)
    ensures
        vals@.len() == args@.len(),
        forall|i: int| 0 <= i < args@.len() ==> val_spec(#[trigger] vals@[i]) == Some(args@[i]),
{
    let mut vals: Vec<Val> = Vec::new();
    let mut i: usize = 0;
    while i < args.len()
        invariant
            i <= args.len(),
            vals@.len() == i,
            forall|j: int| 0 <= j < i ==> val_spec(#[trigger] vals@[j]) == Some(args@[j]),
        decreases args.len() - i,
    {
        vals.push(to_engine(args[i]));
        i += 1;
    }
    vals
}

/// The scalars that the engine's values hold, one for one; `None` for a value
/// that is no scalar.
fn scalars(vals: &Vec<Val>) -> (values: Vec<Option<Value>>)
    ensures
        values@.len() == vals@.len(),
        forall|i: int| 0 <= i < vals@.len() ==> #[trigger] values@[i] == val_spec(vals@[i]),
{
    let mut values: Vec<Option<Value>> = Vec::new();
    let mut i: usize = 0;
    while i < vals.len()
        invariant
            i <= vals.len(),
            values@.len() == i,
            forall|j: int| 0 <= j < i ==> #[trigger] values@[j] == val_spec(vals@[j]),
        decreases vals.len() - i,
    {
        values.push(from_engine(&vals[i]));
        i += 1;
    }
    values
}

} // verus!
