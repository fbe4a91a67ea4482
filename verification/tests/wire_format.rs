use darkproto::stream::{relay_block, BUF_MAX_LEN};
use darkproto::vsock::{decode_u64, encode_u64, IoOutcome, Transfer};

#[test]
fn encode_u64_is_little_endian() {
    assert_eq!(encode_u64(1_000_000), [0x40, 0x42, 0x0f, 0, 0, 0, 0, 0]);
    assert_eq!(encode_u64(0), [0; 8]);
    assert_eq!(encode_u64(u64::MAX), [0xff; 8]);
    assert_eq!(encode_u64(0x0102_0304_0506_0708), [8, 7, 6, 5, 4, 3, 2, 1]);
}

#[test]
fn encode_u64_matches_std_le_bytes() {
    for v in [1u64, 13, 255, 256, 8192, 0xdead_beef, u64::MAX - 1] {
        assert_eq!(encode_u64(v), v.to_le_bytes());
    }
}

#[test]
fn decode_u64_reads_little_endian() {
    assert_eq!(decode_u64(&[0x40, 0x42, 0x0f, 0, 0, 0, 0, 0]), 1_000_000);
    assert_eq!(decode_u64(&[8, 7, 6, 5, 4, 3, 2, 1]), 0x0102_0304_0506_0708);
}

#[test]
fn decode_of_encode_gives_back_the_value() {
    for v in [0u64, 1, 13, 8192, 1 << 40, u64::MAX] {
        assert_eq!(decode_u64(&encode_u64(v)), v);
    }
}

#[test]
fn encode_of_decode_gives_back_the_bytes() {
    let bytes = [0x11, 0x22, 0x33, 0x44, 0x55, 0x66, 0x77, 0x88];
    assert_eq!(encode_u64(decode_u64(&bytes)), bytes);
}

#[test]
fn transfer_completes_after_len_bytes() {
    let mut t = Transfer::new(10).unwrap();
    assert!(!t.is_complete());
    assert_eq!(t.pending(), (0, 10));
    assert_eq!(t.record(IoOutcome::Transferred(4)), Ok(()));
    assert_eq!(t.pending(), (4, 10));
    assert!(!t.is_complete());
    assert_eq!(t.record(IoOutcome::Transferred(6)), Ok(()));
    assert!(t.is_complete());
}

#[test]
fn transfer_of_nothing_is_complete_at_once() {
    let t = Transfer::new(0).unwrap();
    assert!(t.is_complete());
}

#[test]
fn interrupted_call_moves_nothing() {
    let mut t = Transfer::new(3).unwrap();
    assert_eq!(t.record(IoOutcome::Interrupted), Ok(()));
    assert_eq!(t.pending(), (0, 3));
    assert_eq!(t.record(IoOutcome::Transferred(0)), Ok(()));
    assert_eq!(t.pending(), (0, 3));
}

#[test]
fn failed_call_ends_transfer_with_its_error() {
    let mut t = Transfer::new(3).unwrap();
    assert_eq!(t.record(IoOutcome::Transferred(1)), Ok(()));
    assert_eq!(t.record(IoOutcome::Failed("Sys(ECONNRESET)".to_string())), Err("Sys(ECONNRESET)".to_string()));
    assert_eq!(t.pending(), (1, 3));
}

#[test]
fn transfer_len_fits_in_usize() {
    assert!(Transfer::new(u64::MAX).is_ok() == (usize::MAX as u128 >= u64::MAX as u128));
}

#[test]
fn relay_block_forwards_the_whole_buffer() {
    let mut buf = [0u8; BUF_MAX_LEN];
    buf[..3].copy_from_slice(b"abc");
    let (header, block) = relay_block(&buf);
    assert_eq!(header, [0x00, 0x20, 0, 0, 0, 0, 0, 0]);
    assert_eq!(block.len(), 8192);
    assert_eq!(&block[..3], b"abc");
    assert!(block[3..].iter().all(|b| *b == 0));
}
