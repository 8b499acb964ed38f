//! Raw module bytes, before validation, and what can go wrong on the way from
//! bytes to a running instance.

use vstd::prelude::*;

verus! {

/// The mathematical content of a [`ModuleError`].
pub enum ModuleErrorSpec {
    Compile(Seq<char>),
    Instantiate(Seq<char>),
}

impl ModuleErrorSpec {
    /// The text that describes the error.
    pub open spec fn message(self) -> Seq<char> {
        match self {
            ModuleErrorSpec::Compile(reason) => "compilation error: "@ + reason,
            ModuleErrorSpec::Instantiate(reason) => "instantiation error: "@ + reason,
        }
    }
}

/// Why a module could not be compiled or instantiated.
#[derive(Debug)]
pub enum ModuleError {
    /// The bytes are not a module that the engine accepts.
    Compile(String),
    /// The compiled module could not be brought to life.
    Instantiate(String),
}

impl View for ModuleError {
    type V = ModuleErrorSpec;

    open spec fn view(&self) -> ModuleErrorSpec {
        match self {
            ModuleError::Compile(reason) => ModuleErrorSpec::Compile(reason@),
            ModuleError::Instantiate(reason) => ModuleErrorSpec::Instantiate(reason@),
        }
    }
}

impl ModuleError {
    /// The text that describes the error: its kind, then the reason.
    pub fn message(&self) -> (text: String)
        ensures
            text@ == self@.message(),
    {
        match self {
            ModuleError::Compile(reason) => "compilation error: ".to_owned().concat(
                reason.as_str(),
            ),
            ModuleError::Instantiate(reason) => "instantiation error: ".to_owned().concat(
                reason.as_str(),
            ),
        }
    }
}

/// The bytes of a candidate guest program. Nothing is validated here: that is
/// left to compilation.
pub struct Module {
    bytes: Vec<u8>,
}

impl View for Module {
    type V = Seq<u8>;

    closed spec fn view(&self) -> Seq<u8> {
        self.bytes@
    }
}

impl Module {
    /// Takes ownership of `bytes` without looking at them.
    pub fn from_bytes(bytes: Vec<u8>) -> (module: Self)
        ensures
            module@ == bytes@,
    {
        Self { bytes }
    }

    /// The bytes that the module was made from, unchanged.
    pub fn bytes(&self) -> (bytes: &[u8])
        ensures
            bytes@ == self@,
    {
        self.bytes.as_slice()
    }
}

} // verus!
