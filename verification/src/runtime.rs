//! The synchronous, in-process execution backend.
//!
//! A [`WasmRuntime`] owns only the compilation engine and the protocol
//! version; it creates instances and never holds them, so there is no cyclic
//! ownership between runtime and instance. A [`WasmInstance`] owns its store
//! (and, through it, the instantiated module) outright and is fully isolated
//! from every other instance.
//!
//! Lifecycle: `create_instance` performs compile, link, instantiate, and the
//! one-time `build_app` call inline; any failure aborts only that load, and
//! the caller must not register anything for it. `tick` performs one
//! `Ready -> Ticking -> Ready` cycle: inbound events are queued in send order,
//! the guest's `update` export runs with the stored application pointer, and
//! the outbound events, mutation requests, and log events are drained. A trap
//! during `update` is reported, not raised: the tick yields zero outbound
//! events and the instance stays ready for the next frame.

use vstd::prelude::*;

use crate::state::LogEvent;
use crate::state::ModState;
use crate::table::AssocTable;
use crate::version::Version;
use crate::wasm;
use crate::wasm::store_state;

verus! {

/// Why a module failed to load. Each variant aborts only the load of that one
/// module; the host process is never affected.
#[derive(Debug)]
pub enum InstanceError {
    /// The bytecode failed to validate or compile.
    Compile(String),
    /// Linking failed: an import or export of the ABI namespace is missing or
    /// has a mismatched type, including a missing `update` export.
    Link(String),
    /// The one-time `build_app` call trapped, or the `build_app` export is
    /// missing; the instance was discarded.
    Init(String),
}

/// What one tick hands back to the host.
pub struct TickOutcome {
    /// Serialized events the guest sent this tick, in send order; empty when
    /// the tick trapped.
    pub events: Vec<Vec<u8>>,
    /// The values the guest proposed for shared resources this tick, as one
    /// aggregated bundle. Never applied to host state here: the host
    /// application accepts or rejects them explicitly.
    pub mutations: AssocTable,
    /// Log events the guest emitted this tick.
    pub logs: Vec<LogEvent>,
    /// The `update` call trapped; the instance stays usable.
    pub trapped: bool,
}

/// One loaded guest module: its execution store (which owns the instantiated
/// module and its linear memory) and its typed entry points.
pub struct WasmInstance {
    pub(crate) store: wasmtime::Store<ModState>,
    pub(crate) update_func: wasmtime::TypedFunc<i32, ()>,
}

/// The module state an instance currently holds.
pub closed spec fn instance_state(inst: WasmInstance) -> ModState {
    store_state(inst.store)
}

/// Creates module instances from raw bytecode; owns nothing else.
pub struct WasmRuntime {
    engine: wasmtime::Engine,
    protocol_version: Version,
}

impl WasmRuntime {
    /// The protocol version this runtime hands to its guests.
    pub closed spec fn spec_protocol_version(self) -> Version {
        self.protocol_version
    }

    /// A runtime with a default engine, speaking the given protocol version.
    pub fn new(protocol_version: Version) -> (r: Self)
        ensures
            r.spec_protocol_version() == protocol_version,
    {
        WasmRuntime { engine: wasm::engine_default(), protocol_version }
    }

    /// Compile `wasm_bytes`, link the imported-function ABI against a fresh
    /// module state, instantiate, and run the guest's one-time `build_app`
    /// export. The import namespace is exactly the fixed ABI table: a guest
    /// importing anything outside it fails to link here, by design.
    ///
    /// On success the instance is ready to tick; its state is well-formed,
    /// its inbound queue is empty (no import can enqueue) and its
    /// mutation-request table is empty (no import can write it) — beyond
    /// that, the state holds whatever `build_app` did through the imports.
    /// On any failure nothing is returned and the load attempt is over: a
    /// compile, link, or init error never unwinds into the host.
    pub fn create_instance(&self, wasm_bytes: &[u8]) -> (r: Result<WasmInstance, InstanceError>)
        ensures
            r matches Ok(inst) ==> {
                &&& instance_state(inst).wf()
                &&& instance_state(inst).events_in@.len() == 0
                &&& instance_state(inst).resource_mutation_requests@ == Map::<
                    Seq<u8>,
                    Seq<u8>,
                >::empty()
            },
    {
        let module = match wasm::compile_module(&self.engine, wasm_bytes) {
            Ok(m) => m,
            Err(e) => {
                return Err(InstanceError::Compile(wasm::error_message(&e)));
            },
        };
        let mut store = wasm::store_new(&self.engine, ModState::new());
        let ghost s0 = store_state(store);
        let mut linker = wasm::linker_new(&self.engine);
        if let Err(e) = wasm::link_console(&mut linker, "console_info", crate::state::LogSeverity::Info) {
            return Err(InstanceError::Link(wasm::error_message(&e)));
        }
        if let Err(e) = wasm::link_console(&mut linker, "console_warn", crate::state::LogSeverity::Warn) {
            return Err(InstanceError::Link(wasm::error_message(&e)));
        }
        if let Err(e) = wasm::link_console(&mut linker, "console_error", crate::state::LogSeverity::Error) {
            return Err(InstanceError::Link(wasm::error_message(&e)));
        }
        if let Err(e) = wasm::link_store_app(&mut linker) {
            return Err(InstanceError::Link(wasm::error_message(&e)));
        }
        if let Err(e) = wasm::link_send_serialized_event(&mut linker) {
            return Err(InstanceError::Link(wasm::error_message(&e)));
        }
        if let Err(e) = wasm::link_get_next_event(&mut linker) {
            return Err(InstanceError::Link(wasm::error_message(&e)));
        }
        if let Err(e) = wasm::link_get_resource(&mut linker) {
            return Err(InstanceError::Link(wasm::error_message(&e)));
        }
        let startup_time = wasm::instant_now();
        if let Err(e) = wasm::link_get_time_since_startup(&mut linker, startup_time) {
            return Err(InstanceError::Link(wasm::error_message(&e)));
        }
        let packed = self.protocol_version.to_u64();
        if let Err(e) = wasm::link_get_protocol_version(&mut linker, packed) {
            return Err(InstanceError::Link(wasm::error_message(&e)));
        }
        let instance = match wasm::instantiate(&linker, &mut store, &module) {
            Ok(i) => i,
            Err(e) => {
                return Err(InstanceError::Link(wasm::error_message(&e)));
            },
        };
        let ghost s1 = store_state(store);
        // Both required exports are resolved now: missing either one fails the
        // load, before `build_app` ever runs.
        let build_app = match wasm::get_func0(&instance, &mut store, "build_app") {
            Ok(f) => f,
            Err(e) => {
                return Err(InstanceError::Init(wasm::error_message(&e)));
            },
        };
        let update_func = match wasm::get_func1(&instance, &mut store, "update") {
            Ok(f) => f,
            Err(e) => {
                return Err(InstanceError::Link(wasm::error_message(&e)));
            },
        };
        if let Err(e) = wasm::call_func0(&build_app, &mut store) {
            return Err(InstanceError::Init(wasm::error_message(&e)));
        }
        proof {
            // The queue started empty and both guest calls could only
            // consume it; the mutation table passed through every step as a
            // value, so its view is still the fresh table's empty map.
            ModState::lemma_empty_queue_stays_empty(s0, s1);
            ModState::lemma_empty_queue_stays_empty(s1, store_state(store));
        }
        Ok(WasmInstance { store, update_func })
    }
}

impl WasmInstance {
    /// One full tick: queue `events_in` in send order, run the guest's
    /// `update` export with the stored application pointer, and drain the
    /// outputs.
    ///
    /// This frame's inbound events are appended to the queue in send order
    /// before the guest runs, and the guest can only consume the queue from
    /// the front: afterwards the queue is a tail of the appended whole.
    /// Whatever was already in the outbound buffer stays at the front of the
    /// returned events (the guest can only append); snapshots are only ever
    /// consumed; and since no import can write the mutation-request table,
    /// the returned bundle is exactly the table the instance held. All three
    /// drained buffers are left empty for the next tick. A trap is reported
    /// in `trapped` and yields zero outbound events; the state is whatever
    /// the guest had established before the trap, and the instance stays
    /// tickable.
    pub fn tick(&mut self, events_in: &Vec<Vec<u8>>) -> (out: TickOutcome)
        requires
            instance_state(*old(self)).wf(),
        ensures
            instance_state(*final(self)).wf(),
            out.mutations.wf(),
            out.trapped ==> out.events@.len() == 0,
            instance_state(*final(self)).events_out@.len() == 0,
            instance_state(*final(self)).log_events@.len() == 0,
            instance_state(*final(self)).resource_mutation_requests@ == Map::<
                Seq<u8>,
                Seq<u8>,
            >::empty(),
            exists|k: int|
                0 <= k && instance_state(*final(self)).events_in.deep_view() == (instance_state(
                    *old(self),
                ).events_in.deep_view() + events_in.deep_view()).skip(k),
            !out.trapped ==> instance_state(*old(self)).events_out.deep_view().is_prefix_of(
                out.events.deep_view(),
            ),
            instance_state(*final(self)).shared_resource_values@.submap_of(
                instance_state(*old(self)).shared_resource_values@,
            ),
            out.mutations == instance_state(*old(self)).resource_mutation_requests,
            instance_state(*old(self)).log_events@.is_prefix_of(out.logs@),
    {
        // Queue this frame's inbound events, front to back, in send order.
        let mut st = wasm::store_swap(&mut self.store, ModState::new());
        st.enqueue_inbound(events_in);
        let app_ptr = st.app_ptr;
        let ghost queued = st;
        let _ = wasm::store_swap(&mut self.store, st);

        // The `Ticking` phase: everything the guest does lands in the state
        // through the verified imports.
        let trapped = match wasm::call_func1(&self.update_func, &mut self.store, app_ptr) {
            Ok(_) => false,
            Err(_) => true,
        };

        // Drain the outputs and leave the rest of the state in place.
        let post = wasm::store_swap(&mut self.store, ModState::new());
        proof {
            let k = choose|k: int|
                0 <= k <= queued.events_in.deep_view().len() && post.events_in.deep_view()
                    == queued.events_in.deep_view().skip(k);
            assert(post.events_in.deep_view() == (instance_state(*old(self)).events_in.deep_view()
                + events_in.deep_view()).skip(k));
        }
        let ModState {
            app_ptr: kept_ptr,
            events_in: kept_events_in,
            events_out,
            shared_resource_values,
            resource_mutation_requests,
            log_events,
        } = post;
        let drained = ModState {
            app_ptr: kept_ptr,
            events_in: kept_events_in,
            events_out: Vec::new(),
            shared_resource_values,
            resource_mutation_requests: AssocTable::new(),
            log_events: Vec::new(),
        };
        let _ = wasm::store_swap(&mut self.store, drained);
        // A trap yields zero outbound events; partial sends are dropped.
        let events = if trapped {
            Vec::new()
        } else {
            events_out
        };
        TickOutcome { events, mutations: resource_mutation_requests, logs: log_events, trapped }
    }


    /// Overwrite the snapshot this instance sees for one shared resource.
    pub fn update_resource_value(&mut self, name: &Vec<u8>, value: &Vec<u8>)
        requires
            instance_state(*old(self)).wf(),
        ensures
            instance_state(*final(self)).wf(),
            instance_state(*final(self)).shared_resource_values@ == instance_state(
                *old(self),
            ).shared_resource_values@.insert(name@, value@),
            instance_state(*final(self)).app_ptr == instance_state(*old(self)).app_ptr,
            instance_state(*final(self)).events_in == instance_state(*old(self)).events_in,
            instance_state(*final(self)).events_out == instance_state(*old(self)).events_out,
            instance_state(*final(self)).resource_mutation_requests == instance_state(
                *old(self),
            ).resource_mutation_requests,
            instance_state(*final(self)).log_events == instance_state(*old(self)).log_events,
    {
        let mut st = wasm::store_swap(&mut self.store, ModState::new());
        st.shared_resource_values.insert(name.clone(), value.clone());
        let _ = wasm::store_swap(&mut self.store, st);
    }

    /// Overwrite, in one pass, the snapshots this instance sees for every
    /// resource in `snapshots`: the broadcast step of the shared-resource
    /// protocol.
    pub fn apply_snapshots(&mut self, snapshots: &AssocTable)
        requires
            instance_state(*old(self)).wf(),
            snapshots.wf(),
        ensures
            instance_state(*final(self)).wf(),
            instance_state(*final(self)).shared_resource_values@ == instance_state(
                *old(self),
            ).shared_resource_values@.union_prefer_right(snapshots@),
            instance_state(*final(self)).app_ptr == instance_state(*old(self)).app_ptr,
            instance_state(*final(self)).events_in == instance_state(*old(self)).events_in,
            instance_state(*final(self)).events_out == instance_state(*old(self)).events_out,
            instance_state(*final(self)).resource_mutation_requests == instance_state(
                *old(self),
            ).resource_mutation_requests,
            instance_state(*final(self)).log_events == instance_state(*old(self)).log_events,
    {
        let mut st = wasm::store_swap(&mut self.store, ModState::new());
        snapshots.merge_into(&mut st.shared_resource_values);
        let _ = wasm::store_swap(&mut self.store, st);
    }
}

} // verus!
