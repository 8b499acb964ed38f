//! The capability linker: the host functions that a guest may reach, gathered
//! by name and then frozen into a set.

use vstd::prelude::*;
use crate::engine::{define_host, error_text, linker_engine, linker_names, new_linker};
use crate::interface::{import_specs, ExternKind, ExternSpec, Import, ImportSpec};
use crate::runtime::WasmRuntime;
use crate::sandbox::{SandboxError, SandboxErrorSpec};
use crate::value::{all_present, collect_present, present, Signature, SignatureSpec, Value};
use wasmtime::{Linker, StoreLimits};

verus! {

/// The namespace from which a guest imports its capabilities.
pub const HOST_NAMESPACE: &'static str = "host";

/// The mathematical content of a [`Capability`].
pub struct CapabilitySpec {
    pub name: Seq<char>,
    pub signature: SignatureSpec,
}

/// A granted host function, as the guest sees it: its name and its signature.
#[derive(Debug)]
pub struct Capability {
    pub name: String,
    pub signature: Signature,
}

impl View for Capability {
    type V = CapabilitySpec;

    open spec fn view(&self) -> CapabilitySpec {
        CapabilitySpec { name: self.name@, signature: self.signature@ }
    }
}

/// The contents of a list of capabilities.
pub open spec fn capability_specs(entries: Seq<Capability>) -> Seq<CapabilitySpec> {
    entries.map_values(|c: Capability| c@)
}

/// Whether a capability called `name` is among `caps`.
pub open spec fn has_capability(caps: Seq<CapabilitySpec>, name: Seq<char>) -> bool {
    exists|i: int| 0 <= i < caps.len() && (#[trigger] caps[i]).name == name
}

/// Whether no two of `caps` have the same name.
pub open spec fn distinct_names(caps: Seq<CapabilitySpec>) -> bool {
    forall|i: int, j: int|
        0 <= i < caps.len() && 0 <= j < caps.len() && i != j ==> (#[trigger] caps[i]).name != (
        #[trigger] caps[j]).name
}

/// Whether a signature can be granted: scalars only, and at most one result.
pub open spec fn grantable(signature: SignatureSpec) -> bool {
    signature.is_scalar() && signature.results.len() <= 1
}

/// Whether `caps` answers `import`: the import asks the host namespace for a
/// function, and a capability of that name has exactly that signature.
pub open spec fn covers_import(caps: Seq<CapabilitySpec>, import: ImportSpec) -> bool {
    &&& import.module == HOST_NAMESPACE@
    &&& exists|i: int|
        0 <= i < caps.len() && (#[trigger] caps[i]).name == import.name && import.kind
            == ExternSpec::Function(caps[i].signature)
}

/// Whether `caps` answers every one of `imports`.
pub open spec fn covers(caps: Seq<CapabilitySpec>, imports: Seq<ImportSpec>) -> bool {
    forall|k: int| 0 <= k < imports.len() ==> covers_import(caps, #[trigger] imports[k])
}

/// The definitions that a linker holds for `caps`: one per capability, in the
/// host namespace.
pub open spec fn definitions(caps: Seq<CapabilitySpec>) -> Set<(Seq<char>, Seq<char>)> {
    Set::new(|key: (Seq<char>, Seq<char>)| key.0 == HOST_NAMESPACE@ && has_capability(caps, key.1))
}

/// What a host function is given for the values that the engine hands over:
/// the scalars, one for one, where every value is a scalar and together they
/// have the types of the signature's parameters. Otherwise the host function
/// is not to be called.
pub fn host_arguments(signature: &Signature, params: Vec<Option<Value>>) -> (args: Option<
    Vec<Value>,
>)
    ensures
        args is Some <==> all_present(params@) && signature@.accepts(present(params@)),
        args matches Some(given) ==> given@ == present(params@),
{
    match collect_present(&params) {
        Some(found) => if signature.accepts(found.as_slice()) {
            Some(found)
        } else {
            None
        },
        None => None,
    }
}

/// What goes back to the guest for a host function's reply: the reply, where
/// the signature declares one result and the reply has its type; nothing
/// otherwise.
pub open spec fn granted_result(signature: SignatureSpec, reply: Option<Value>) -> Option<Value> {
    if signature.results.len() == 1 && reply is Some && reply->0.ty() == signature.results[0] {
        reply
    } else {
        None
    }
}

/// Decides [`granted_result`].
pub fn host_result(signature: &Signature, reply: Option<Value>) -> (slot: Option<Value>)
    ensures
        slot == granted_result(signature@, reply),
{
    match reply {
        Some(value) => if signature.results.len() == 1 && value.value_type()
            == signature.results[0] {
            Some(value)
        } else {
            None
        },
        None => None,
    }
}

/// The result slots for a reply: one slot where a result is granted, none
/// otherwise.
pub open spec fn result_slots(signature: SignatureSpec, reply: Option<Value>) -> Seq<Value> {
    match granted_result(signature, reply) {
        Some(value) => seq![value],
        None => Seq::empty(),
    }
}

/// Serves one call of the guest into a host function. The host function is
/// called exactly when the values handed over fit the signature, and then
/// with exactly those values; what it replies fills the result slot where the
/// reply fits the signature. In every other case no slot is filled, and the
/// engine then fails the call where the guest expects a result.
pub fn answer_guest<F>(signature: &Signature, host: &F, params: Vec<Option<Value>>) -> (slots: Vec<
    Value,
>) where F: Fn(Vec<Value>) -> Option<Value>
    requires
        forall|args: Vec<Value>| signature@.accepts(args@) ==> host.requires((args,)),
    ensures
        !(all_present(params@) && signature@.accepts(present(params@))) ==> slots@.len() == 0,
        all_present(params@) && signature@.accepts(present(params@)) ==> exists|
            args: Vec<Value>,
            reply: Option<Value>,
        |
            args@ == present(params@) && #[trigger] host.ensures((args,), reply) && slots@
                == result_slots(signature@, reply),
{
    let mut slots: Vec<Value> = Vec::new();
    match host_arguments(signature, params) {
        Some(args) => {
            let ghost given = args;
            let reply = host(args);
            match host_result(signature, reply) {
                Some(value) => slots.push(value),
                None => {},
            }
            assert(given@ == present(params@) && host.ensures((given,), reply) && slots@
                =~= result_slots(signature@, reply));
        },
        None => {},
    }
    slots
}

/// Finds the capability called `name`.
fn position(entries: &Vec<Capability>, name: &String) -> (found: Option<usize>)
    ensures
        found is Some <==> has_capability(capability_specs(entries@), name@),
        found matches Some(i) ==> i < entries@.len() && entries@[i as int].name@ == name@,
{
    let ghost caps = capability_specs(entries@);
    let mut i: usize = 0;
    while i < entries.len()
        invariant
            i <= entries.len(),
            caps == capability_specs(entries@),
            forall|j: int| 0 <= j < i ==> (#[trigger] caps[j]).name != name@,
        decreases entries.len() - i,
    {
        if entries[i].name == *name {
            assert(caps[i as int].name == name@);
            return Some(i);
        }
        i += 1;
    }
    None
}

/// Decides [`covers_import`] for one import.
fn answers(entries: &Vec<Capability>, import: &Import) -> (ok: bool)
    requires
        distinct_names(capability_specs(entries@)),
    ensures
        ok == covers_import(capability_specs(entries@), import@),
{
    let ghost caps = capability_specs(entries@);
    if import.module != HOST_NAMESPACE.to_owned() {
        return false;
    }
    match position(entries, &import.name) {
        Some(i) => {
            assert(caps[i as int] == entries@[i as int]@);
            match &import.kind {
                ExternKind::Function(signature) => {
                    let same = signature.same(&entries[i].signature);
                    proof {
                        if same {
                            assert(caps[i as int].name == import@.name);
                        } else {
                            assert forall|j: int|
                                0 <= j < caps.len() && (#[trigger] caps[j]).name
                                    == import@.name implies import@.kind != ExternSpec::Function(
                                caps[j].signature,
                            ) by {
                                assert(j == i);
                            }
                        }
                    }
                    same
                },
                _ => false,
            }
        },
        None => false,
    }
}

/// Finds the first of `imports` that `entries` does not answer.
fn first_uncovered(entries: &Vec<Capability>, imports: &Vec<Import>) -> (missing: Option<usize>)
    requires
        distinct_names(capability_specs(entries@)),
    ensures
        missing is None <==> covers(capability_specs(entries@), import_specs(imports@)),
        missing matches Some(k) ==> k < imports@.len() && !covers_import(
            capability_specs(entries@),
            imports@[k as int]@,
        ),
{
    let ghost caps = capability_specs(entries@);
    let ghost asked = import_specs(imports@);
    let mut k: usize = 0;
    while k < imports.len()
        invariant
            k <= imports.len(),
            caps == capability_specs(entries@),
            asked == import_specs(imports@),
            distinct_names(caps),
            forall|j: int| 0 <= j < k ==> covers_import(caps, #[trigger] asked[j]),
        decreases imports.len() - k,
    {
        if !answers(entries, &imports[k]) {
            assert(asked[k as int] == imports@[k as int]@);
            return Some(k);
        }
        assert(asked[k as int] == imports@[k as int]@);
        k += 1;
    }
    None
}

/// Capabilities under assembly. Host functions are registered one by one, each
/// under a name of its own; [`CapabilityLinker::build`] then freezes them.
pub struct CapabilityLinker {
    linker: Linker<StoreLimits>,
    entries: Vec<Capability>,
}

impl View for CapabilityLinker {
    type V = Seq<CapabilitySpec>;

    closed spec fn view(&self) -> Seq<CapabilitySpec> {
        capability_specs(self.entries@)
    }
}

impl CapabilityLinker {
    /// No name is registered twice, every signature can be granted, and the
    /// engine holds one definition for each capability and no other.
    pub closed spec fn wf(&self) -> bool {
        &&& distinct_names(self@)
        &&& forall|i: int| 0 <= i < self@.len() ==> grantable((#[trigger] self@[i]).signature)
        &&& linker_names(self.linker) == definitions(self@)
    }

    /// The identity of the engine that the capabilities are registered with.
    pub closed spec fn engine_id(&self) -> int {
        linker_engine(self.linker)
    }

    /// A linker for `runtime`, with nothing registered.
    pub fn new(runtime: &WasmRuntime) -> (linker: Self)
        ensures
            linker.wf(),
            linker@ == Seq::<CapabilitySpec>::empty(),
            linker.engine_id() == runtime.engine_id(),
    {
        let linker = CapabilityLinker { linker: new_linker(runtime.engine()), entries: Vec::new() };
        assert(linker@ =~= Seq::<CapabilitySpec>::empty());
        assert(definitions(linker@) =~= Set::<(Seq<char>, Seq<char>)>::empty());
        linker
    }

    /// Registers a host function under `name`. The guest reaches it by
    /// importing a function of that name and signature from the host
    /// namespace; the host function then receives the guest's arguments, which
    /// have the types of the signature, and its reply becomes the result.
    ///
    /// A name can be registered once: a second registration fails with
    /// `DuplicateCapability` and changes nothing. A signature that is not
    /// [`grantable`] fails with a linker error and changes nothing.
    pub fn register<F>(&mut self, name: &str, signature: Signature, host: F) -> (outcome: Result<
        (),
        SandboxError,
    >) where F: Fn(Vec<Value>) -> Option<Value> + Send + Sync + 'static
        requires
            old(self).wf(),
            forall|args: Vec<Value>| signature@.accepts(args@) ==> host.requires((args,)),
        ensures
            final(self).wf(),
            final(self).engine_id() == old(self).engine_id(),
            outcome is Ok <==> !has_capability(old(self)@, name@) && grantable(signature@),
            outcome is Ok ==> final(self)@ == old(self)@.push(
                CapabilitySpec { name: name@, signature: signature@ },
            ),
            outcome is Err ==> final(self)@ == old(self)@,
            outcome matches Err(error) ==> error@ == (if has_capability(old(self)@, name@) {
                SandboxErrorSpec::DuplicateCapability(name@)
            } else {
                SandboxErrorSpec::Linker("unsupported signature"@)
            }),
    {
        let key = name.to_owned();
        if position(&self.entries, &key).is_some() {
            return Err(SandboxError::DuplicateCapability(key));
        }
        if !signature.is_scalar() || signature.results.len() > 1 {
            return Err(SandboxError::Linker("unsupported signature".to_owned()));
        }
        let ghost before = self@;
        assert(!linker_names(self.linker).contains((HOST_NAMESPACE@, name@)));
        let declared = signature.duplicate();
        match define_host(&mut self.linker, HOST_NAMESPACE, name, declared, host) {
            Ok(()) => {
                self.entries.push(Capability { name: key, signature });
                proof {
                    let added = CapabilitySpec { name: name@, signature: signature@ };
                    assert(self@ =~= before.push(added));
                    assert forall|n: Seq<char>| has_capability(self@, n) <==> (has_capability(
                        before,
                        n,
                    ) || n == name@) by {
                        if has_capability(before, n) {
                            let i = choose|i: int|
                                0 <= i < before.len() && (#[trigger] before[i]).name == n;
                            assert(self@[i].name == n);
                        }
                        if n == name@ {
                            assert(self@[before.len() as int].name == n);
                        }
                    }
                    assert(definitions(self@) =~= definitions(before).insert(
                        (HOST_NAMESPACE@, name@),
                    ));
                }
                Ok(())
            },
            Err(error) => Err(SandboxError::Linker(error_text(&error))),
        }
    }

    /// Freezes the registrations. The set that comes out grants exactly what
    /// was registered, and nothing can be added to it.
    pub fn build(self) -> (set: CapabilitySet)
        requires
            self.wf(),
        ensures
            set.wf(),
            set@ == self@,
            set.engine_id() == self.engine_id(),
    {
        CapabilitySet { linker: self.linker, entries: self.entries }
    }
}

/// A frozen set of capabilities: what an instance bound to it can reach on the
/// host, and all it can reach.
pub struct CapabilitySet {
    linker: Linker<StoreLimits>,
    entries: Vec<Capability>,
}

impl View for CapabilitySet {
    type V = Seq<CapabilitySpec>;

    closed spec fn view(&self) -> Seq<CapabilitySpec> {
        capability_specs(self.entries@)
    }
}

impl CapabilitySet {
    /// No name occurs twice, every signature can be granted, and the engine
    /// holds one definition for each capability and no other.
    pub closed spec fn wf(&self) -> bool {
        &&& distinct_names(self@)
        &&& forall|i: int| 0 <= i < self@.len() ==> grantable((#[trigger] self@[i]).signature)
        &&& linker_names(self.linker) == definitions(self@)
    }

    /// The identity of the engine that the capabilities are registered with.
    pub closed spec fn engine_id(&self) -> int {
        linker_engine(self.linker)
    }

    /// The set that grants nothing.
    pub fn empty(runtime: &WasmRuntime) -> (set: Self)
        ensures
            set.wf(),
            set@ == Seq::<CapabilitySpec>::empty(),
            set.engine_id() == runtime.engine_id(),
    {
        CapabilityLinker::new(runtime).build()
    }

    /// How many capabilities the set grants.
    pub fn len(&self) -> (count: usize)
        ensures
            count == self@.len(),
    {
        self.entries.len()
    }

    /// Whether the set grants a capability called `name`.
    pub fn contains(&self, name: &str) -> (granted: bool)
        ensures
            granted == has_capability(self@, name@),
    {
        position(&self.entries, &name.to_owned()).is_some()
    }

    /// Finds the first of `imports` that the set does not answer; `None`
    /// where it answers them all.
    pub fn first_uncovered(&self, imports: &Vec<Import>) -> (missing: Option<usize>)
        requires
            self.wf(),
        ensures
            missing is None <==> covers(self@, import_specs(imports@)),
            missing matches Some(k) ==> k < imports@.len() && !covers_import(
                self@,
                imports@[k as int]@,
            ),
    {
        first_uncovered(&self.entries, imports)
    }

    /// The engine's own record of the definitions.
    pub(crate) closed spec fn definitions_spec(&self) -> Linker<StoreLimits> {
        self.linker
    }

    /// What ties the set's engine to its record of definitions.
    pub(crate) proof fn engine_is_linker_engine(&self)
        ensures
            self.engine_id() == linker_engine(self.definitions_spec()),
    {
    }

    pub(crate) fn definitions(&self) -> (linker: &Linker<StoreLimits>)
        ensures
            *linker == self.definitions_spec(),
    {
        &self.linker
    }
}

} // verus!
