use guest_bridge::abi::console_log;
use guest_bridge::abi::get_next_event;
use guest_bridge::abi::get_resource;
use guest_bridge::abi::send_serialized_event;
use guest_bridge::abi::store_app;
use guest_bridge::state::LogSeverity;
use guest_bridge::state::ModState;

#[test]
fn console_records_the_decoded_message() {
    let mut state = ModState::new();
    let mem: Vec<u8> = b"..hello!..".to_vec();
    console_log(&mut state, &mem, LogSeverity::Info, 2, 6);
    assert_eq!(state.log_events.len(), 1);
    assert_eq!(state.log_events[0].severity, LogSeverity::Info);
    assert_eq!(state.log_events[0].message, "hello!");
}

#[test]
fn console_substitutes_replacement_characters_for_invalid_utf8() {
    let mut state = ModState::new();
    let mem: Vec<u8> = vec![0xFF, b'a'];
    console_log(&mut state, &mem, LogSeverity::Warn, 0, 2);
    assert_eq!(state.log_events.len(), 1);
    assert_eq!(state.log_events[0].severity, LogSeverity::Warn);
    assert_eq!(state.log_events[0].message, "\u{FFFD}a");
}

#[test]
fn console_logs_an_accessor_error_for_a_bad_window() {
    let mut state = ModState::new();
    let mem: Vec<u8> = vec![0; 4];
    console_log(&mut state, &mem, LogSeverity::Info, 3, u32::MAX);
    assert_eq!(state.log_events.len(), 1);
    assert_eq!(state.log_events[0].severity, LogSeverity::Error);
}

#[test]
fn store_app_keeps_the_last_pointer() {
    let mut state = ModState::new();
    store_app(&mut state, 0x1000);
    store_app(&mut state, 0x2000);
    assert_eq!(state.app_ptr, 0x2000);
}

#[test]
fn sent_events_keep_their_bytes() {
    let mut state = ModState::new();
    let mem: Vec<u8> = vec![9, 1, 2, 3, 9];
    send_serialized_event(&mut state, &mem, 1, 3);
    assert_eq!(state.events_out, vec![vec![1, 2, 3]]);
    assert!(state.log_events.is_empty());
}

#[test]
fn sending_a_bad_window_stores_nothing() {
    let mut state = ModState::new();
    let mem: Vec<u8> = vec![0; 4];
    send_serialized_event(&mut state, &mem, 2, 3);
    assert!(state.events_out.is_empty());
    assert_eq!(state.log_events.len(), 1);
    assert_eq!(state.log_events[0].severity, LogSeverity::Error);
}

#[test]
fn event_round_trip_is_identity() {
    // Outbound: the guest sends a payload out of its memory; inbound: the
    // host queues the same bytes and the guest reads them back whole.
    let payload: Vec<u8> = vec![42, 0, 7, 255, 13];
    let mut state = ModState::new();
    let guest_mem: Vec<u8> = payload.clone();
    send_serialized_event(&mut state, &guest_mem, 0, payload.len() as u32);
    assert_eq!(state.events_out, vec![payload.clone()]);

    let mut receiver = ModState::new();
    receiver.enqueue_inbound(&state.events_out);
    let mut arena: Vec<u8> = vec![0; 16];
    let written = get_next_event(&mut receiver, &mut arena, 4, 12);
    assert_eq!(written as usize, payload.len());
    assert_eq!(&arena[4..4 + payload.len()], payload.as_slice());
    assert!(receiver.log_events.is_empty());
}

#[test]
fn empty_queue_returns_zero_and_leaves_the_arena_untouched() {
    let mut state = ModState::new();
    let mut arena: Vec<u8> = vec![5, 6, 7, 8];
    let written = get_next_event(&mut state, &mut arena, 0, 4);
    assert_eq!(written, 0);
    assert_eq!(arena, vec![5, 6, 7, 8]);
    assert!(state.log_events.is_empty());
}

#[test]
fn events_are_delivered_in_send_order() {
    let mut state = ModState::new();
    state.enqueue_inbound(&vec![vec![1], vec![2], vec![3]]);
    let mut arena: Vec<u8> = vec![0; 4];
    for expected in 1u8..=3 {
        let written = get_next_event(&mut state, &mut arena, 0, 4);
        assert_eq!(written, 1);
        assert_eq!(arena[0], expected);
    }
    assert_eq!(get_next_event(&mut state, &mut arena, 0, 4), 0);
}

#[test]
fn an_oversized_event_is_truncated_and_reported() {
    let mut state = ModState::new();
    state.enqueue_inbound(&vec![vec![1, 2, 3, 4, 5, 6]]);
    let mut arena: Vec<u8> = vec![0; 4];
    let written = get_next_event(&mut state, &mut arena, 0, 4);
    // The returned length reflects the bytes actually written, so the guest
    // can compare it against its own capacity.
    assert_eq!(written, 4);
    assert_eq!(arena, vec![1, 2, 3, 4]);
    assert_eq!(state.log_events.len(), 1);
    assert_eq!(state.log_events[0].severity, LogSeverity::Error);
}

#[test]
fn a_bad_arena_drops_the_event_and_reports() {
    let mut state = ModState::new();
    state.enqueue_inbound(&vec![vec![1, 2, 3]]);
    let mut arena: Vec<u8> = vec![9; 4];
    let written = get_next_event(&mut state, &mut arena, u32::MAX, u32::MAX);
    assert_eq!(written, 0);
    assert_eq!(arena, vec![9; 4]);
    assert_eq!(state.log_events.len(), 1);
    assert_eq!(state.log_events[0].severity, LogSeverity::Error);
}

fn state_with_resource(name: &[u8], value: &[u8]) -> ModState {
    let mut state = ModState::new();
    state.shared_resource_values.insert(name.to_vec(), value.to_vec());
    state
}

#[test]
fn get_resource_copies_the_snapshot() {
    let mut state = state_with_resource(b"score", &[1, 2, 3]);
    // Guest memory: the resource name sits at offset 0, the buffer at 8.
    let mut mem: Vec<u8> = vec![0; 16];
    mem[..5].copy_from_slice(b"score");
    let written = get_resource(&mut state, &mut mem, 0, 5, 8, 8);
    assert_eq!(written, 3);
    assert_eq!(&mem[8..11], &[1, 2, 3]);
}

#[test]
fn get_resource_consumes_on_read() {
    let mut state = state_with_resource(b"score", &[1, 2, 3]);
    let mut mem: Vec<u8> = vec![0; 16];
    mem[..5].copy_from_slice(b"score");
    assert_eq!(get_resource(&mut state, &mut mem, 0, 5, 8, 8), 3);
    // The snapshot was consumed: a second read in the same tick finds nothing.
    assert_eq!(get_resource(&mut state, &mut mem, 0, 5, 8, 8), 0);
}

#[test]
fn get_resource_returns_zero_for_an_unknown_name() {
    let mut state = ModState::new();
    let mut mem: Vec<u8> = vec![0; 16];
    mem[..5].copy_from_slice(b"score");
    assert_eq!(get_resource(&mut state, &mut mem, 0, 5, 8, 8), 0);
    assert_eq!(&mem[8..], &[0; 8]);
    assert!(state.log_events.is_empty());
}

#[test]
fn get_resource_rejects_a_bad_name_window() {
    let mut state = state_with_resource(b"score", &[1, 2, 3]);
    let mut mem: Vec<u8> = vec![0; 16];
    assert_eq!(get_resource(&mut state, &mut mem, u32::MAX, 5, 8, 8), 0);
    assert_eq!(state.log_events.len(), 1);
    assert_eq!(state.log_events[0].severity, LogSeverity::Error);
    // Nothing was consumed.
    assert!(state.shared_resource_values.get(&b"score".to_vec()).is_some());
}
