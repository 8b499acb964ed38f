//! Sandboxed execution of WebAssembly modules.
//!
//! Untrusted module bytes are compiled by a [`WasmRuntime`], instantiated by a
//! [`Sandbox`] under a [`CapabilitySet`] that names every host function the
//! guest may call, and run through exported entry points. Scalars cross the
//! boundary as [`Value`]s; everything else goes through the bounds-checked
//! memory operations of an [`Instance`].

pub mod engine;
pub mod instance;
pub mod interface;
pub mod linker;
pub mod memory;
pub mod module;
pub mod runtime;
pub mod sandbox;
pub mod text;
pub mod value;

pub use instance::Instance;
pub use linker::{CapabilityLinker, CapabilitySet};
pub use module::{Module, ModuleError};
pub use runtime::{CompiledUnit, WasmRuntime};
pub use sandbox::{Sandbox, SandboxError};
pub use value::{Signature, Value, ValueType};
