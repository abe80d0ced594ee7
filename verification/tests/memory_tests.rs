use guest_bridge::memory::mem_read;
use guest_bridge::memory::mem_write;

#[test]
fn reads_a_window_in_bounds() {
    let mem: Vec<u8> = vec![10, 11, 12, 13, 14];
    let bytes = mem_read(&mem, 1, 3).unwrap();
    assert_eq!(bytes, vec![11, 12, 13]);
}

#[test]
fn reads_the_empty_window() {
    let mem: Vec<u8> = vec![10, 11];
    assert_eq!(mem_read(&mem, 2, 0).unwrap(), Vec::<u8>::new());
}

#[test]
fn rejects_a_window_past_the_end() {
    let mem: Vec<u8> = vec![0; 16];
    assert!(mem_read(&mem, 10, 7).is_err());
    assert!(mem_read(&mem, 17, 0).is_err());
}

#[test]
fn rejects_a_window_whose_sum_wraps_32_bits() {
    // offset and length each fit in 32 bits, their sum does not: a naive
    // 32-bit bounds check would wrap around to a small number and pass.
    let mem: Vec<u8> = vec![0; 64];
    assert!(mem_read(&mem, u32::MAX, u32::MAX).is_err());
    assert!(mem_read(&mem, u32::MAX, 1).is_err());
    assert!(mem_read(&mem, 1, u32::MAX).is_err());
}

#[test]
fn writes_a_window_and_leaves_the_rest() {
    let mut mem: Vec<u8> = vec![0; 8];
    mem_write(&mut mem, 2, &[7, 8, 9]).unwrap();
    assert_eq!(mem, vec![0, 0, 7, 8, 9, 0, 0, 0]);
}

#[test]
fn refuses_to_write_past_the_end() {
    let mut mem: Vec<u8> = vec![1, 2, 3, 4];
    assert!(mem_write(&mut mem, 3, &[9, 9]).is_err());
    assert_eq!(mem, vec![1, 2, 3, 4]);
    assert!(mem_write(&mut mem, u32::MAX, &[9]).is_err());
    assert_eq!(mem, vec![1, 2, 3, 4]);
}
