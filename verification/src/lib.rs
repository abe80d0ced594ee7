//! Host side of a sandboxed guest-module bridge.
//!
//! A host application loads untrusted binary modules at runtime, exchanges
//! serialized events and shared-resource snapshots with them on every
//! simulation tick, and must stay sound against hostile offsets and lengths
//! handed across the linear-memory boundary.
//!
//! The pieces, leaves first: [`version`] is the packed protocol-compatibility
//! token; [`memory`] the bounds-checked access to guest linear memory;
//! [`table`] the name-keyed snapshot tables; [`state`] the per-module mutable
//! state; [`abi`] the imported functions a guest may call, specified against
//! that state; [`wasm`] the trusted boundary to the sandbox engine;
//! [`runtime`] the in-process backend that creates and ticks instances;
//! [`registry`] the host-global shared-resource broadcast; [`lifecycle`] the
//! phase machine both backends present, including the asynchronous backend's
//! tick-before-ready rules; [`engine`] and [`wasm_asset`] the shared compiler
//! handle and the bytecode asset.

pub mod abi;
pub mod engine;
pub mod lifecycle;
pub mod memory;
pub mod registry;
pub mod runtime;
pub mod state;
pub mod table;
pub mod version;
pub mod wasm;
pub mod wasm_asset;

use vstd::prelude::*;

verus! {

} // verus!
