//! Per-module mutable state, visible to the imported functions of exactly one
//! loaded guest module.
//!
//! The state is owned by the module's instance for its whole lifetime and is
//! only touched while that instance executes, so no locking is involved: the
//! host writes the inbound queue before a tick, the guest drains it and fills
//! the outbound buffer during the tick, and the host drains the outputs after.

use vstd::prelude::*;

use std::collections::VecDeque;

use crate::table::AssocTable;

verus! {

/// Severity of a log line a guest emitted through a console import.
#[derive(Clone, Copy, Debug, PartialEq, Eq, Structural)]
pub enum LogSeverity {
    /// Informational output.
    Info,
    /// A warning.
    Warn,
    /// An error, including every memory-accessor failure.
    Error,
}

/// One categorized log event. The core only collects these; rendering them is
/// the embedding host's business.
pub struct LogEvent {
    /// Severity the guest chose, or `Error` for accessor failures.
    pub severity: LogSeverity,
    /// The decoded message text.
    pub message: String,
}

/// The mutable data the imported functions of one guest module operate on.
///
/// The instance's creation timestamp is not a field here: it is bound into
/// the `get_time_since_startup` import when the instance links, and never
/// changes afterwards.
pub struct ModState {
    /// Opaque handle the guest registers after `build_app`; the host never
    /// dereferences it, only relays it back on every `update` call.
    pub app_ptr: i32,
    /// Events the host queued for the guest, drained front-to-back in send
    /// order by `get_next_event`.
    pub events_in: VecDeque<Vec<u8>>,
    /// Events the guest sent to the host, appended by `send_serialized_event`
    /// and drained by the host after each tick.
    pub events_out: Vec<Vec<u8>>,
    /// Latest serialized snapshot of each shared resource, overwritten
    /// wholesale on broadcast and consumed on read by `get_resource`.
    pub shared_resource_values: AssocTable,
    /// Values the guest proposes for shared resources, drained once per tick;
    /// never applied to host state without host-side arbitration.
    pub resource_mutation_requests: AssocTable,
    /// Log events the guest emitted since the host last drained them.
    pub log_events: Vec<LogEvent>,
}

impl ModState {
    /// Both name-keyed tables are well-formed.
    pub open spec fn wf(self) -> bool {
        self.shared_resource_values.wf() && self.resource_mutation_requests.wf()
    }

    /// What any number of imported-function calls may do to the state, and no
    /// more: the union of the contracts in [`crate::abi`]. `get_next_event`
    /// only pops the inbound queue from the front; `send_serialized_event`
    /// only appends to the outbound buffer; `get_resource` only removes
    /// snapshots; the console imports and the error paths only append log
    /// events; nothing at all touches the mutation-request table. The
    /// relation is reflexive and transitive, so it covers a whole guest call
    /// however many imports it invoked. The application pointer is absent
    /// here deliberately: `store_app` may set it to anything at any time.
    pub open spec fn evolves_under_imports(pre: ModState, post: ModState) -> bool {
        &&& exists|k: int|
            0 <= k <= pre.events_in.deep_view().len() && post.events_in.deep_view()
                == pre.events_in.deep_view().skip(k)
        &&& pre.events_out.deep_view().is_prefix_of(post.events_out.deep_view())
        &&& post.shared_resource_values@.submap_of(pre.shared_resource_values@)
        &&& post.resource_mutation_requests == pre.resource_mutation_requests
        &&& pre.log_events@.is_prefix_of(post.log_events@)
    }

    /// An import evolution step starting from an empty inbound queue leaves
    /// it empty: the imports can only consume the queue, never fill it.
    pub proof fn lemma_empty_queue_stays_empty(pre: ModState, post: ModState)
        requires
            ModState::evolves_under_imports(pre, post),
            pre.events_in.deep_view().len() == 0,
        ensures
            post.events_in.deep_view().len() == 0,
    {
        let k = choose|k: int|
            0 <= k <= pre.events_in.deep_view().len() && post.events_in.deep_view()
                == pre.events_in.deep_view().skip(k);
        assert(post.events_in.deep_view().len() == pre.events_in.deep_view().skip(k).len());
    }

    /// Fresh state: no app pointer yet, all queues and tables empty.
    pub fn new() -> (r: Self)
        ensures
            r.wf(),
            r.app_ptr == 0,
            r.events_in@.len() == 0,
            r.events_out@.len() == 0,
            r.shared_resource_values@ == Map::<Seq<u8>, Seq<u8>>::empty(),
            r.resource_mutation_requests@ == Map::<Seq<u8>, Seq<u8>>::empty(),
            r.log_events@.len() == 0,
    {
        ModState {
            app_ptr: 0,
            events_in: VecDeque::new(),
            events_out: Vec::new(),
            shared_resource_values: AssocTable::new(),
            resource_mutation_requests: AssocTable::new(),
            log_events: Vec::new(),
        }
    }

    /// Host side of the inbound path: append this frame's events to the back
    /// of the queue, preserving send order, touching nothing else.
    pub fn enqueue_inbound(&mut self, events: &Vec<Vec<u8>>)
        ensures
            final(self).events_in.deep_view() == old(self).events_in.deep_view() + events
                .deep_view(),
            final(self).app_ptr == old(self).app_ptr,
            final(self).events_out == old(self).events_out,
            final(self).shared_resource_values == old(self).shared_resource_values,
            final(self).resource_mutation_requests == old(self).resource_mutation_requests,
            final(self).log_events == old(self).log_events,
    {
        let mut i: usize = 0;
        while i < events.len()
            invariant
                0 <= i <= events@.len(),
                self.events_in.deep_view() == old(self).events_in.deep_view() + events
                    .deep_view().take(i as int),
                self.app_ptr == old(self).app_ptr,
                self.events_out == old(self).events_out,
                self.shared_resource_values == old(self).shared_resource_values,
                self.resource_mutation_requests == old(self).resource_mutation_requests,
                self.log_events == old(self).log_events,
            decreases events@.len() - i,
        {
            let ev = events[i].clone();
            proof {
                assert(ev.deep_view() =~= events.deep_view()[i as int]);
                assert(self.events_in.deep_view().push(ev.deep_view()) =~= old(
                    self,
                ).events_in.deep_view() + events.deep_view().take(i + 1));
            }
            self.events_in.push_back(ev);
            i = i + 1;
        }
        proof {
            assert(events.deep_view().take(events@.len() as int) =~= events.deep_view());
        }
    }
}

} // verus!
