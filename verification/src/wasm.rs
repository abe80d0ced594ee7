//! Trusted boundary to the sandbox engine.
//!
//! Everything in this module either declares a type of the `wasmtime` crate or
//! wraps one call into it. The contracts here are the assumptions the rest of
//! the library is verified against; each wrapper's doc comment names the
//! outside function it relies on.
//!
//! The per-module state lives inside the engine's store while a guest
//! executes, and the imported functions registered here mutate it only
//! through the verified functions of [`crate::abi`]. Two consequences are
//! assumed below and nowhere else: a guest call preserves the state's
//! well-formedness, and it changes the state only as
//! [`ModState::evolves_under_imports`] allows — both hold of every import
//! this module registers, which are the only ones a guest can reach. The
//! import namespace is exactly the fixed ABI table: no other shims are
//! registered, so a guest importing anything else fails to link, by design.
//!
//! Several wasmtime functions panic when handed a store that does not own the
//! instance, function, or linker engine they are applied to. Those wrappers
//! are crate-private, and the runtime always pairs them with the store they
//! came from; nothing outside this crate can reach them.

use vstd::prelude::*;

use crate::abi;
use crate::state::LogSeverity;
use crate::state::ModState;

verus! {

#[verifier::external_type_specification]
#[verifier::external_body]
pub struct ExEngine(wasmtime::Engine);

#[verifier::external_type_specification]
#[verifier::external_body]
pub struct ExModule(wasmtime::Module);

#[verifier::external_type_specification]
#[verifier::external_body]
#[verifier::reject_recursive_types(T)]
pub struct ExLinker<T>(wasmtime::Linker<T>);

#[verifier::external_type_specification]
#[verifier::external_body]
#[verifier::reject_recursive_types(T)]
pub struct ExStore<T: 'static>(wasmtime::Store<T>);

#[verifier::external_type_specification]
#[verifier::external_body]
#[verifier::reject_recursive_types(Params)]
#[verifier::reject_recursive_types(Results)]
pub struct ExTypedFunc<Params, Results>(wasmtime::TypedFunc<Params, Results>);

#[verifier::external_type_specification]
#[verifier::external_body]
pub struct ExInstance(wasmtime::Instance);

#[verifier::external_type_specification]
#[verifier::external_body]
pub struct ExError(wasmtime::Error);

#[verifier::external_type_specification]
#[verifier::external_body]
pub struct ExInstant(std::time::Instant);

/// The module state a store holds at a given moment.
pub uninterp spec fn store_state(s: wasmtime::Store<ModState>) -> ModState;

/// Relies on `wasmtime::Config` and `wasmtime::Engine::new`: an engine whose
/// linear memories reserve a modest address-space window up front instead of
/// the multi-gigabyte default, so loading a module cannot fail on hosts with
/// a tight virtual-memory budget. Out-of-window accesses stay explicit bounds
/// checks inside the sandbox.
#[verifier::external_body]
pub(crate) fn engine_default() -> wasmtime::Engine {
    let mut config = wasmtime::Config::new();
    config.memory_reservation(1 << 24);
    config.memory_guard_size(1 << 16);
    wasmtime::Engine::new(&config).unwrap_or_default()
}

/// Relies on `wasmtime::Engine::clone`: engines are cheaply shareable handles.
#[verifier::external_body]
pub(crate) fn engine_clone(engine: &wasmtime::Engine) -> wasmtime::Engine {
    engine.clone()
}

/// Relies on `wasmtime::Module::new`: validates and compiles a binary (or
/// text) module, returning `Err` on malformed bytecode.
#[verifier::external_body]
pub(crate) fn compile_module(engine: &wasmtime::Engine, bytes: &[u8]) -> Result<
    wasmtime::Module,
    wasmtime::Error,
> {
    wasmtime::Module::new(engine, bytes)
}

/// Relies on `wasmtime::Error`'s `Display` implementation for a readable
/// description of a compile, link, or trap failure.
#[verifier::external_body]
pub(crate) fn error_message(e: &wasmtime::Error) -> String {
    e.to_string()
}

/// Relies on `wasmtime::Store::new`: the store starts out holding exactly the
/// data it was given.
#[verifier::external_body]
pub(crate) fn store_new(engine: &wasmtime::Engine, st: ModState) -> (s: wasmtime::Store<ModState>)
    ensures
        store_state(s) == st,
{
    wasmtime::Store::new(engine, st)
}

/// Relies on `core::mem::replace` on `wasmtime::Store::data_mut`: hands the
/// held module state out and puts `st` in its place.
#[verifier::external_body]
pub(crate) fn store_swap(s: &mut wasmtime::Store<ModState>, st: ModState) -> (r: ModState)
    ensures
        r == store_state(*old(s)),
        store_state(*final(s)) == st,
{
    core::mem::replace(s.data_mut(), st)
}

/// Relies on `std::time::Instant::now`: an opaque timestamp for the moment the
/// instance was created.
#[verifier::external_body]
pub(crate) fn instant_now() -> std::time::Instant {
    std::time::Instant::now()
}

/// Relies on `wasmtime::Linker::new`: a linker with no definitions yet.
#[verifier::external_body]
pub(crate) fn linker_new(engine: &wasmtime::Engine) -> wasmtime::Linker<ModState> {
    wasmtime::Linker::new(engine)
}

/// Relies on `wasmtime::Linker::func_wrap`: registers one console import
/// under `name` whose body is the verified `abi::console_log` at the given
/// severity, bound to the calling instance's memory and state. A guest
/// without an exported memory gets the verified accessor-failure log instead.
#[verifier::external_body]
pub(crate) fn link_console(
    linker: &mut wasmtime::Linker<ModState>,
    name: &str,
    severity: LogSeverity,
) -> Result<(), wasmtime::Error> {
    linker.func_wrap(
        "host",
        name,
        move |mut caller: wasmtime::Caller<'_, ModState>, ptr: i32, len: u32| {
            let Some(wasmtime::Extern::Memory(m)) = caller.get_export("memory") else {
                return abi::missing_memory_export(caller.data_mut());
            };
            let (mem, state) = m.data_and_store_mut(&mut caller);
            abi::console_log(state, mem, severity, ptr as u32, len)
        },
    ).map(|_| ())
}

/// Relies on `wasmtime::Linker::func_wrap`: registers the `store_app` import,
/// whose body is the verified `abi::store_app`.
#[verifier::external_body]
pub(crate) fn link_store_app(linker: &mut wasmtime::Linker<ModState>) -> Result<
    (),
    wasmtime::Error,
> {
    linker.func_wrap(
        "host",
        "store_app",
        |mut caller: wasmtime::Caller<'_, ModState>, app_ptr: i32| {
            abi::store_app(caller.data_mut(), app_ptr)
        },
    ).map(|_| ())
}

/// Relies on `wasmtime::Linker::func_wrap`: registers the
/// `send_serialized_event` import, whose body is the verified
/// `abi::send_serialized_event`. A guest without an exported memory gets the
/// verified accessor-failure log instead.
#[verifier::external_body]
pub(crate) fn link_send_serialized_event(linker: &mut wasmtime::Linker<ModState>) -> Result<
    (),
    wasmtime::Error,
> {
    linker.func_wrap(
        "host",
        "send_serialized_event",
        |mut caller: wasmtime::Caller<'_, ModState>, ptr: i32, len: u32| {
            let Some(wasmtime::Extern::Memory(m)) = caller.get_export("memory") else {
                return abi::missing_memory_export(caller.data_mut());
            };
            let (mem, state) = m.data_and_store_mut(&mut caller);
            abi::send_serialized_event(state, mem, ptr as u32, len)
        },
    ).map(|_| ())
}

/// Relies on `wasmtime::Linker::func_wrap`: registers the `get_next_event`
/// import, whose body is the verified `abi::get_next_event`. A guest without
/// an exported memory gets 0 and the verified accessor-failure log.
#[verifier::external_body]
pub(crate) fn link_get_next_event(linker: &mut wasmtime::Linker<ModState>) -> Result<
    (),
    wasmtime::Error,
> {
    linker.func_wrap(
        "host",
        "get_next_event",
        |mut caller: wasmtime::Caller<'_, ModState>, arena: i32, len: u32| -> u32 {
            let Some(wasmtime::Extern::Memory(m)) = caller.get_export("memory") else {
                abi::missing_memory_export(caller.data_mut());
                return 0;
            };
            let (mem, state) = m.data_and_store_mut(&mut caller);
            abi::get_next_event(state, mem, arena as u32, len)
        },
    ).map(|_| ())
}

/// Relies on `wasmtime::Linker::func_wrap`: registers the `get_resource`
/// import, whose body is the verified `abi::get_resource`. A guest without an
/// exported memory gets 0 and the verified accessor-failure log.
#[verifier::external_body]
pub(crate) fn link_get_resource(linker: &mut wasmtime::Linker<ModState>) -> Result<
    (),
    wasmtime::Error,
> {
    linker.func_wrap(
        "host",
        "get_resource",
        |mut caller: wasmtime::Caller<'_, ModState>, name: i32, name_len: u32, buffer: i32, buffer_len: u32| -> u32 {
            let Some(wasmtime::Extern::Memory(m)) = caller.get_export("memory") else {
                abi::missing_memory_export(caller.data_mut());
                return 0;
            };
            let (mem, state) = m.data_and_store_mut(&mut caller);
            abi::get_resource(state, mem, name as u32, name_len, buffer as u32, buffer_len)
        },
    ).map(|_| ())
}

/// Relies on `wasmtime::Linker::func_wrap` and `std::time::Instant::elapsed`:
/// registers the `get_time_since_startup` import, which answers with the
/// nanoseconds elapsed since `t0`, the instance's creation instant.
#[verifier::external_body]
pub(crate) fn link_get_time_since_startup(
    linker: &mut wasmtime::Linker<ModState>,
    t0: std::time::Instant,
) -> Result<(), wasmtime::Error> {
    linker.func_wrap(
        "host",
        "get_time_since_startup",
        move || -> u64 { t0.elapsed().as_nanos() as u64 },
    ).map(|_| ())
}

/// Relies on `wasmtime::Linker::func_wrap`: registers the
/// `get_protocol_version` import, which answers with the packed version the
/// host was constructed with.
#[verifier::external_body]
pub(crate) fn link_get_protocol_version(
    linker: &mut wasmtime::Linker<ModState>,
    packed: u64,
) -> Result<(), wasmtime::Error> {
    linker.func_wrap("host", "get_protocol_version", move || -> u64 { packed }).map(|_| ())
}

/// Relies on `wasmtime::Linker::instantiate`: links the module's imports
/// against the registered definitions and runs its start section, if any.
/// Fails on a missing or mismatched import. A start function can only reach
/// the state through the verified imports, so the state stays well-formed and
/// changes only as the imports allow.
///
/// Panics when the store was not created on the linker's engine: crate-private
/// on that account, and `create_instance` builds linker and store from the
/// same engine.
#[verifier::external_body]
pub(crate) fn instantiate(
    linker: &wasmtime::Linker<ModState>,
    store: &mut wasmtime::Store<ModState>,
    module: &wasmtime::Module,
) -> (r: Result<wasmtime::Instance, wasmtime::Error>)
    requires
        store_state(*old(store)).wf(),
    ensures
        store_state(*final(store)).wf(),
        ModState::evolves_under_imports(store_state(*old(store)), store_state(*final(store))),
{
    linker.instantiate(&mut *store, module)
}

/// Relies on `wasmtime::Instance::get_typed_func`: looks an exported
/// no-argument, no-result function up by name; fails when the export is
/// missing or has another type. Only the export table is consulted; the held
/// module state is untouched.
///
/// Panics when `store` does not own `instance`: crate-private on that
/// account, and the runtime only pairs an instance with its own store.
#[verifier::external_body]
pub(crate) fn get_func0(
    instance: &wasmtime::Instance,
    store: &mut wasmtime::Store<ModState>,
    name: &str,
) -> (r: Result<wasmtime::TypedFunc<(), ()>, wasmtime::Error>)
    ensures
        store_state(*final(store)) == store_state(*old(store)),
{
    instance.get_typed_func::<(), ()>(&mut *store, name)
}

/// Relies on `wasmtime::Instance::get_typed_func`: looks an exported
/// one-`i32`-argument, no-result function up by name; fails when the export
/// is missing or has another type. Only the export table is consulted; the
/// held module state is untouched.
///
/// Panics when `store` does not own `instance`: crate-private on that
/// account, and the runtime only pairs an instance with its own store.
#[verifier::external_body]
pub(crate) fn get_func1(
    instance: &wasmtime::Instance,
    store: &mut wasmtime::Store<ModState>,
    name: &str,
) -> (r: Result<wasmtime::TypedFunc<i32, ()>, wasmtime::Error>)
    ensures
        store_state(*final(store)) == store_state(*old(store)),
{
    instance.get_typed_func::<i32, ()>(&mut *store, name)
}

/// Relies on `wasmtime::TypedFunc::call`: runs the guest export, `Err` on a
/// trap. Trapped or not, the guest can only reach the state through the
/// verified imports, so the state stays well-formed and changes only as the
/// imports allow.
///
/// Panics when `store` does not own the function: crate-private on that
/// account, and the runtime only calls functions on the store that resolved
/// them.
#[verifier::external_body]
pub(crate) fn call_func0(
    f: &wasmtime::TypedFunc<(), ()>,
    store: &mut wasmtime::Store<ModState>,
) -> (r: Result<(), wasmtime::Error>)
    requires
        store_state(*old(store)).wf(),
    ensures
        store_state(*final(store)).wf(),
        ModState::evolves_under_imports(store_state(*old(store)), store_state(*final(store))),
{
    f.call(&mut *store, ())
}

/// Relies on `wasmtime::TypedFunc::call`: runs the guest export with one
/// `i32` argument, `Err` on a trap. Trapped or not, the guest can only reach
/// the state through the verified imports, so the state stays well-formed and
/// changes only as the imports allow.
///
/// Panics when `store` does not own the function: crate-private on that
/// account, and the runtime only calls functions on the store that resolved
/// them.
#[verifier::external_body]
pub(crate) fn call_func1(
    f: &wasmtime::TypedFunc<i32, ()>,
    store: &mut wasmtime::Store<ModState>,
    arg: i32,
) -> (r: Result<(), wasmtime::Error>)
    requires
        store_state(*old(store)).wf(),
    ensures
        store_state(*final(store)).wf(),
        ModState::evolves_under_imports(store_state(*old(store)), store_state(*final(store))),
{
    f.call(&mut *store, arg)
}

} // verus!
