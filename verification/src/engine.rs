//! The shared compilation engine, paired with the host's protocol version.
//!
//! Engines are cheaply cloneable handles to one shared compiler; each loaded
//! module still gets its own store and its own state, so sharing the engine
//! shares nothing mutable between instances.

use vstd::prelude::*;

use crate::version::Version;
use crate::wasm;

verus! {

/// Holds the compilation engine and the protocol version the host speaks.
pub struct WasmEngine {
    protocol_version: Version,
    engine: wasmtime::Engine,
}

impl WasmEngine {
    /// The protocol version this engine's host speaks.
    pub closed spec fn spec_protocol_version(self) -> Version {
        self.protocol_version
    }

    /// A default engine speaking the given protocol version.
    pub fn new(protocol_version: Version) -> (r: Self)
        ensures
            r.spec_protocol_version() == protocol_version,
    {
        WasmEngine { protocol_version, engine: wasm::engine_default() }
    }

    /// The protocol version of the host.
    pub fn protocol_version(&self) -> (r: Version)
        ensures
            r == self.spec_protocol_version(),
    {
        self.protocol_version
    }

    /// A fresh handle to the shared engine.
    pub fn engine(&self) -> wasmtime::Engine {
        wasm::engine_clone(&self.engine)
    }
}

} // verus!
