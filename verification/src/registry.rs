//! Host-global registry of shared-resource snapshots.
//!
//! The host updates a snapshot whenever it observes a change, then broadcasts
//! to every live instance before that frame's ticks. Broadcast copies: each
//! instance receives its own snapshot bytes, so a slow or hostile instance can
//! never block or corrupt another, and a guest mutating its copy changes
//! nothing for anyone else. Guests never write here — their mutation requests
//! surface in the tick outcome for the host to arbitrate explicitly.

use vstd::prelude::*;

use crate::runtime::instance_state;
use crate::runtime::WasmInstance;
use crate::table::AssocTable;

verus! {

/// The latest serialized snapshot of every shared resource, by name.
pub struct SharedResourceRegistry {
    values: AssocTable,
}

impl View for SharedResourceRegistry {
    type V = Map<Seq<u8>, Seq<u8>>;

    closed spec fn view(&self) -> Map<Seq<u8>, Seq<u8>> {
        self.values@
    }
}

impl SharedResourceRegistry {
    /// The snapshot table is well-formed.
    pub closed spec fn wf(self) -> bool {
        self.values.wf()
    }

    /// An empty registry.
    pub fn new() -> (r: Self)
        ensures
            r@ == Map::<Seq<u8>, Seq<u8>>::empty(),
            r.wf(),
    {
        SharedResourceRegistry { values: AssocTable::new() }
    }

    /// Store the new snapshot under `name`. The prior snapshot stays reachable
    /// only through instances that already copied it.
    pub fn update(&mut self, name: Vec<u8>, value: Vec<u8>)
        requires
            old(self).wf(),
        ensures
            final(self)@ == old(self)@.insert(name@, value@),
            final(self).wf(),
    {
        self.values.insert(name, value);
    }

    /// The current snapshot for `name`, if any.
    pub fn get(&self, name: &Vec<u8>) -> (r: Option<&Vec<u8>>)
        requires
            self.wf(),
        ensures
            match r {
                Some(v) => self@.contains_key(name@) && v@ == self@[name@],
                None => !self@.contains_key(name@),
            },
    {
        self.values.get(name)
    }

    /// After a broadcast an instance sees, for every registered name, exactly
    /// the registry's snapshot — whatever that instance held before. Each
    /// instance gets its own copy, so no instance can affect what another
    /// reads.
    pub proof fn lemma_broadcast_overrides(
        prior: Map<Seq<u8>, Seq<u8>>,
        snapshots: Map<Seq<u8>, Seq<u8>>,
        name: Seq<u8>,
    )
        requires
            snapshots.contains_key(name),
        ensures
            prior.union_prefer_right(snapshots).contains_key(name),
            prior.union_prefer_right(snapshots)[name] == snapshots[name],
    {
    }

    /// Overwrite `instance`'s view of every registered resource with the
    /// latest snapshots; everything else about the instance is untouched.
    /// Called once per resource change for every live instance, before that
    /// frame's tick.
    pub fn broadcast_to(&self, instance: &mut WasmInstance)
        requires
            self.wf(),
            instance_state(*old(instance)).wf(),
        ensures
            instance_state(*final(instance)).wf(),
            instance_state(*final(instance)).shared_resource_values@ == instance_state(
                *old(instance),
            ).shared_resource_values@.union_prefer_right(self@),
            instance_state(*final(instance)).app_ptr == instance_state(*old(instance)).app_ptr,
            instance_state(*final(instance)).events_in == instance_state(*old(instance)).events_in,
            instance_state(*final(instance)).events_out == instance_state(
                *old(instance),
            ).events_out,
            instance_state(*final(instance)).resource_mutation_requests == instance_state(
                *old(instance),
            ).resource_mutation_requests,
            instance_state(*final(instance)).log_events == instance_state(
                *old(instance),
            ).log_events,
    {
        instance.apply_snapshots(&self.values)
    }
}

} // verus!
