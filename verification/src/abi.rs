//! The imported-function ABI: what each host function a guest may call does to
//! the module's state and to the guest's linear memory.
//!
//! Each function here is the host-side body of one import-table entry. The
//! execution backend binds them to the guest's linear memory and to the
//! module's [`ModState`]; everything the guest hands over (pointers, lengths,
//! names, payloads) is attacker-controlled and goes through the bounds-checked
//! accessor. A failed access is logged at error severity and answered with the
//! protocol-level zero result; it never propagates. Every call receives the
//! memory as it is at that moment and re-evaluates its bounds checks against
//! it: nothing is cached, so a memory that grew between calls is handled
//! correctly by construction.
//!
//! Resource reads are consume-on-read: `get_resource` removes the snapshot it
//! returns, so a second read in the same tick finds nothing until the host
//! broadcasts again.

use vstd::prelude::*;

use crate::memory::in_bounds;
use crate::memory::mem_read;
use crate::memory::mem_write;
use crate::state::LogEvent;
use crate::state::LogSeverity;
use crate::state::ModState;

verus! {

/// What `String::from_utf8_lossy` returns for the given bytes: a function of
/// the bytes alone.
pub uninterp spec fn utf8_lossy_of(b: Seq<u8>) -> Seq<char>;

/// Relies on `String::from_utf8_lossy`: the result depends only on the bytes;
/// invalid sequences become replacement characters instead of undefined
/// behavior, and ASCII bytes decode to themselves.
#[verifier::external_body]
fn utf8_lossy(bytes: &Vec<u8>) -> (r: String)
    ensures
        r@ == utf8_lossy_of(bytes@),
        (forall|i: int| 0 <= i < bytes@.len() ==> bytes@[i] < 0x80) ==> (r@.len() == bytes@.len()
            && forall|i: int| 0 <= i < bytes@.len() ==> r@[i] == bytes@[i] as char),
{
    String::from_utf8_lossy(bytes).into_owned()
}

/// The log line recorded when a guest-supplied window fails the bounds check.
pub open spec fn accessor_error_text() -> Seq<char> {
    "memory accessor failure: window out of bounds"@
}

/// The log line recorded when a guest calls a memory-moving import without
/// exporting its linear memory under the required name.
pub open spec fn missing_memory_text() -> Seq<char> {
    "memory accessor failure: no exported guest memory"@
}

/// The log line recorded when a payload had to be truncated to the guest's
/// buffer capacity.
pub open spec fn truncation_error_text() -> Seq<char> {
    "payload truncated to the guest buffer"@
}

/// `post` is `pre` with exactly one log event appended.
pub open spec fn logs_appended(pre: ModState, post: ModState, severity: LogSeverity, message: Seq<
    char,
>) -> bool {
    &&& post.log_events@.len() == pre.log_events@.len() + 1
    &&& post.log_events@.drop_last() == pre.log_events@
    &&& post.log_events@.last().severity == severity
    &&& post.log_events@.last().message@ == message
}

/// Everything but the log buffer is unchanged.
pub open spec fn same_but_logs(pre: ModState, post: ModState) -> bool {
    &&& post.app_ptr == pre.app_ptr
    &&& post.events_in == pre.events_in
    &&& post.events_out == pre.events_out
    &&& post.shared_resource_values == pre.shared_resource_values
    &&& post.resource_mutation_requests == pre.resource_mutation_requests
}

fn log_line(state: &mut ModState, severity: LogSeverity, text: &str)
    ensures
        same_but_logs(*old(state), *final(state)),
        logs_appended(*old(state), *final(state), severity, text@),
{
    let message = text.to_owned();
    proof {
        let pushed = old(state).log_events@.push(LogEvent { severity, message });
        assert(pushed.drop_last() =~= old(state).log_events@);
    }
    state.log_events.push(LogEvent { severity, message });
}

/// The accessor failure path for a guest that calls a memory-moving import
/// without exporting a linear memory: log the error, change nothing else.
pub fn missing_memory_export(state: &mut ModState)
    ensures
        same_but_logs(*old(state), *final(state)),
        logs_appended(*old(state), *final(state), LogSeverity::Error, missing_memory_text()),
{
    log_line(state, LogSeverity::Error, "memory accessor failure: no exported guest memory");
}

/// Import `console_info` / `console_warn` / `console_error`: decode the
/// guest's message bytes and record one log event at the given severity.
///
/// The decoded text is exactly the lossy-UTF-8 reading of the window; a window
/// that fails the bounds check records an accessor error instead, and nothing
/// propagates to the guest either way.
pub fn console_log(state: &mut ModState, mem: &[u8], severity: LogSeverity, ptr: u32, len: u32)
    ensures
        same_but_logs(*old(state), *final(state)),
        in_bounds(ptr, len as int, mem@.len()) ==> logs_appended(
            *old(state),
            *final(state),
            severity,
            utf8_lossy_of(mem@.subrange(ptr as int, ptr + len)),
        ),
        !in_bounds(ptr, len as int, mem@.len()) ==> logs_appended(
            *old(state),
            *final(state),
            LogSeverity::Error,
            accessor_error_text(),
        ),
{
    match mem_read(mem, ptr, len) {
        Ok(bytes) => {
            let message = utf8_lossy(&bytes);
            proof {
                let pushed = old(state).log_events@.push(LogEvent { severity, message });
                assert(pushed.drop_last() =~= old(state).log_events@);
            }
            state.log_events.push(LogEvent { severity, message });
        },
        Err(_) => {
            log_line(state, LogSeverity::Error, "memory accessor failure: window out of bounds");
        },
    }
}

/// Import `store_app`: record the guest's opaque application pointer.
/// Idempotent; the last write wins.
pub fn store_app(state: &mut ModState, app_ptr: i32)
    ensures
        *final(state) == (ModState { app_ptr, ..*old(state) }),
{
    state.app_ptr = app_ptr;
}

/// Import `send_serialized_event`: append the raw bytes of the guest's window
/// to the outbound event buffer, without deserializing them at this layer.
///
/// A window that fails the bounds check appends nothing and records an
/// accessor error.
pub fn send_serialized_event(state: &mut ModState, mem: &[u8], ptr: u32, len: u32)
    ensures
        final(state).app_ptr == old(state).app_ptr,
        final(state).events_in == old(state).events_in,
        final(state).shared_resource_values == old(state).shared_resource_values,
        final(state).resource_mutation_requests == old(state).resource_mutation_requests,
        in_bounds(ptr, len as int, mem@.len()) ==> {
            &&& final(state).events_out.deep_view() == old(state).events_out.deep_view().push(
                mem@.subrange(ptr as int, ptr + len),
            )
            &&& final(state).log_events == old(state).log_events
        },
        !in_bounds(ptr, len as int, mem@.len()) ==> {
            &&& final(state).events_out == old(state).events_out
            &&& logs_appended(
                *old(state),
                *final(state),
                LogSeverity::Error,
                accessor_error_text(),
            )
        },
{
    match mem_read(mem, ptr, len) {
        Ok(bytes) => {
            proof {
                assert(bytes.deep_view() =~= bytes@);
                let pushed = old(state).events_out.deep_view().push(bytes.deep_view());
                assert(pushed =~= old(state).events_out.deep_view().push(
                    mem@.subrange(ptr as int, ptr + len),
                ));
                assert(old(state).events_out@.push(bytes).map(
                    |i: int, v: Vec<u8>| v.deep_view(),
                ) =~= pushed);
            }
            state.events_out.push(bytes);
        },
        Err(_) => {
            log_line(state, LogSeverity::Error, "memory accessor failure: window out of bounds");
        },
    }
}

/// How many payload bytes land in a guest buffer of the given capacity: the
/// whole payload, or the capacity when the payload is longer.
pub open spec fn delivered_len(payload_len: int, capacity: u32) -> int {
    if payload_len <= capacity {
        payload_len
    } else {
        capacity as int
    }
}

/// Import `get_next_event`: pop the front of the inbound queue and copy it
/// into the guest's arena.
///
/// On an empty queue, returns 0 and touches neither the arena nor the state.
/// Otherwise the front event leaves the queue and up to `arena_len` of its
/// bytes land at `arena_ptr`; the returned count is always the number of bytes
/// actually written, so a guest can detect truncation by comparing it against
/// its own capacity. A truncation, like an arena that fails the bounds check,
/// is reported with an error log event.
pub fn get_next_event(state: &mut ModState, mem: &mut [u8], arena_ptr: u32, arena_len: u32) -> (written: u32)
    ensures
        final(mem)@.len() == old(mem)@.len(),
        old(state).events_in@.len() == 0 ==> written == 0 && *final(state) == *old(state)
            && final(mem)@ == old(mem)@,
        old(state).events_in@.len() > 0 ==> {
            let ev = old(state).events_in.deep_view()[0];
            let n = delivered_len(ev.len() as int, arena_len);
            &&& final(state).events_in.deep_view() == old(state).events_in.deep_view().drop_first()
            &&& final(state).app_ptr == old(state).app_ptr
            &&& final(state).events_out == old(state).events_out
            &&& final(state).shared_resource_values == old(state).shared_resource_values
            &&& final(state).resource_mutation_requests == old(state).resource_mutation_requests
            &&& in_bounds(arena_ptr, n, old(mem)@.len()) ==> {
                &&& written == n
                &&& forall|j: int| 0 <= j < n ==> final(mem)@[arena_ptr + j] == ev[j]
                &&& forall|j: int|
                    0 <= j < old(mem)@.len() && !(arena_ptr <= j < arena_ptr + n)
                        ==> final(mem)@[j] == old(mem)@[j]
                &&& n == ev.len() ==> final(state).log_events == old(state).log_events
                &&& n < ev.len() ==> logs_appended(
                    *old(state),
                    *final(state),
                    LogSeverity::Error,
                    truncation_error_text(),
                )
            }
            &&& !in_bounds(arena_ptr, n, old(mem)@.len()) ==> {
                &&& written == 0
                &&& final(mem)@ == old(mem)@
                &&& logs_appended(
                    *old(state),
                    *final(state),
                    LogSeverity::Error,
                    accessor_error_text(),
                )
            }
        },
{
    if state.events_in.len() == 0 {
        return 0;
    }
    let first = state.events_in.pop_front();
    match first {
        None => 0,
        Some(ev) => {
            proof {
                assert(ev@ =~= old(state).events_in.deep_view()[0]);
                assert(state.events_in.deep_view()
                    =~= old(state).events_in.deep_view().drop_first());
            }
            let n: usize = if ev.len() <= arena_len as usize {
                ev.len()
            } else {
                arena_len as usize
            };
            let payload = vstd::slice::slice_subrange(ev.as_slice(), 0, n);
            match mem_write(mem, arena_ptr, payload) {
                Ok(_) => {
                    proof {
                        assert forall|j: int| 0 <= j < n implies mem@[arena_ptr + j] == old(
                            state,
                        ).events_in.deep_view()[0][j] by {
                            assert(mem@[arena_ptr + j] == payload@[j]);
                            assert(payload@[j] == ev@[j]);
                        }
                    }
                    if n < ev.len() {
                        log_line(state, LogSeverity::Error, "payload truncated to the guest buffer");
                    }
                    n as u32
                },
                Err(_) => {
                    log_line(
                        state,
                        LogSeverity::Error,
                        "memory accessor failure: window out of bounds",
                    );
                    0
                },
            }
        },
    }
}

/// Truncation is detectable: a count below the guest's own capacity means the
/// payload arrived whole, and a truncated payload always fills the capacity
/// exactly, so comparing the returned count against the capacity decides it.
pub proof fn lemma_truncation_is_detectable(payload_len: int, capacity: u32)
    requires
        payload_len >= 0,
    ensures
        delivered_len(payload_len, capacity) < capacity ==> delivered_len(payload_len, capacity)
            == payload_len,
        delivered_len(payload_len, capacity) < payload_len ==> delivered_len(
            payload_len,
            capacity,
        ) == capacity,
{
}

/// Round-trip identity: a payload that is no longer than the receiving buffer
/// is delivered whole and unmodified.
///
/// Together with the contract of `get_next_event` this pins the inbound path:
/// when the front event fits the arena, nothing is truncated and the window
/// the guest reads back equals the event bytes exactly. The outbound path is
/// pinned by `send_serialized_event` directly: the stored event is the exact
/// window the guest supplied.
pub proof fn lemma_round_trip_delivery(
    payload: Seq<u8>,
    mem_pre: Seq<u8>,
    mem_post: Seq<u8>,
    ptr: u32,
    capacity: u32,
)
    requires
        payload.len() <= capacity,
        in_bounds(ptr, payload.len() as int, mem_pre.len()),
        mem_post.len() == mem_pre.len(),
        forall|j: int|
            0 <= j < delivered_len(payload.len() as int, capacity) ==> mem_post[ptr + j]
                == payload[j],
    ensures
        delivered_len(payload.len() as int, capacity) == payload.len(),
        mem_post.subrange(ptr as int, ptr + payload.len()) == payload,
{
    assert(mem_post.subrange(ptr as int, ptr + payload.len()) =~= payload);
}

/// Import `get_resource`: look the named shared-resource snapshot up and copy
/// it into the guest's buffer, consuming it.
///
/// The name window is read first; if it fails the bounds check an accessor
/// error is logged and nothing else happens. An unknown name returns 0 and
/// changes nothing. A known name is removed from the snapshot table
/// (consume-on-read) and up to `buffer_len` of its bytes land at `buffer_ptr`;
/// the returned count is the number of bytes actually written.
pub fn get_resource(
    state: &mut ModState,
    mem: &mut [u8],
    name_ptr: u32,
    name_len: u32,
    buffer_ptr: u32,
    buffer_len: u32,
) -> (written: u32)
    requires
        old(state).wf(),
    ensures
        final(state).wf(),
        final(mem)@.len() == old(mem)@.len(),
        final(state).app_ptr == old(state).app_ptr,
        final(state).events_in == old(state).events_in,
        final(state).events_out == old(state).events_out,
        final(state).resource_mutation_requests == old(state).resource_mutation_requests,
        !in_bounds(name_ptr, name_len as int, old(mem)@.len()) ==> {
            &&& written == 0
            &&& final(mem)@ == old(mem)@
            &&& final(state).shared_resource_values == old(state).shared_resource_values
            &&& logs_appended(
                *old(state),
                *final(state),
                LogSeverity::Error,
                accessor_error_text(),
            )
        },
        in_bounds(name_ptr, name_len as int, old(mem)@.len()) ==> {
            let name = old(mem)@.subrange(name_ptr as int, name_ptr + name_len);
            &&& !old(state).shared_resource_values@.contains_key(name) ==> {
                &&& written == 0
                &&& final(mem)@ == old(mem)@
                &&& final(state).shared_resource_values@ == old(state).shared_resource_values@
                &&& final(state).log_events == old(state).log_events
            }
            &&& old(state).shared_resource_values@.contains_key(name) ==> {
                let value = old(state).shared_resource_values@[name];
                let n = delivered_len(value.len() as int, buffer_len);
                &&& final(state).shared_resource_values@
                    == old(state).shared_resource_values@.remove(name)
                &&& in_bounds(buffer_ptr, n, old(mem)@.len()) ==> {
                    &&& written == n
                    &&& forall|j: int| 0 <= j < n ==> final(mem)@[buffer_ptr + j] == value[j]
                    &&& forall|j: int|
                        0 <= j < old(mem)@.len() && !(buffer_ptr <= j < buffer_ptr + n)
                            ==> final(mem)@[j] == old(mem)@[j]
                    &&& n == value.len() ==> final(state).log_events == old(state).log_events
                    &&& n < value.len() ==> logs_appended(
                        *old(state),
                        *final(state),
                        LogSeverity::Error,
                        truncation_error_text(),
                    )
                }
                &&& !in_bounds(buffer_ptr, n, old(mem)@.len()) ==> {
                    &&& written == 0
                    &&& final(mem)@ == old(mem)@
                    &&& logs_appended(
                        *old(state),
                        *final(state),
                        LogSeverity::Error,
                        accessor_error_text(),
                    )
                }
            }
        },
{
    let name = match mem_read(mem, name_ptr, name_len) {
        Ok(name) => name,
        Err(_) => {
            log_line(state, LogSeverity::Error, "memory accessor failure: window out of bounds");
            return 0;
        },
    };
    match state.shared_resource_values.remove(&name) {
        None => {
            proof {
                assert(old(state).shared_resource_values@.remove(name@)
                    =~= old(state).shared_resource_values@);
            }
            0
        },
        Some(value) => {
            let n: usize = if value.len() <= buffer_len as usize {
                value.len()
            } else {
                buffer_len as usize
            };
            let payload = vstd::slice::slice_subrange(value.as_slice(), 0, n);
            match mem_write(mem, buffer_ptr, payload) {
                Ok(_) => {
                    proof {
                        let ghost key = old(mem)@.subrange(name_ptr as int, name_ptr + name_len);
                        assert forall|j: int| 0 <= j < n implies mem@[buffer_ptr + j] == old(
                            state,
                        ).shared_resource_values@[key][j] by {
                            assert(mem@[buffer_ptr + j] == payload@[j]);
                            assert(payload@[j] == value@[j]);
                        }
                    }
                    if n < value.len() {
                        log_line(state, LogSeverity::Error, "payload truncated to the guest buffer");
                    }
                    n as u32
                },
                Err(_) => {
                    log_line(
                        state,
                        LogSeverity::Error,
                        "memory accessor failure: window out of bounds",
                    );
                    0
                },
            }
        },
    }
}

} // verus!
