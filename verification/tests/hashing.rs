use resilissh::chunk::{
    align_down, boundary_len, chunk_len, slice_end, CHUNK_SIZE, HASH_READ_BUFFER_SIZE,
    PROGRESS_SLICE_SIZE,
};
use resilissh::hashing::{digest_of, hex_encode, same_digest, RangeHash};
use resilissh::retry::{next_backoff_ms, INITIAL_BACKOFF_MS, MAX_BACKOFF_MS};

#[test]
fn aligns_offset_down_to_chunk_boundary() {
    assert_eq!(align_down(0), 0);
    assert_eq!(align_down(CHUNK_SIZE), CHUNK_SIZE);
    assert_eq!(align_down(CHUNK_SIZE + 2072), CHUNK_SIZE);
    assert_eq!(align_down(33_556_504), 33_554_432);
}

#[test]
fn chunk_sizes() {
    assert_eq!(CHUNK_SIZE, 1_048_576);
    assert_eq!(chunk_len(0, 10), 10);
    assert_eq!(chunk_len(0, CHUNK_SIZE + 1), CHUNK_SIZE);
    assert_eq!(chunk_len(CHUNK_SIZE, CHUNK_SIZE + 1), 1);
    assert_eq!(boundary_len(10), 10);
    assert_eq!(boundary_len(3 * CHUNK_SIZE), CHUNK_SIZE);
    assert_eq!(slice_end(0, CHUNK_SIZE), PROGRESS_SLICE_SIZE);
    assert_eq!(slice_end(PROGRESS_SLICE_SIZE, PROGRESS_SLICE_SIZE + 5), PROGRESS_SLICE_SIZE + 5);
    assert_eq!(align_down(align_down(3_000_000)), align_down(3_000_000));
}

#[test]
fn backoff_doubles_up_to_its_maximum() {
    let mut wait = INITIAL_BACKOFF_MS;
    let mut seen = vec![wait];
    for _ in 0..5 {
        wait = next_backoff_ms(wait);
        seen.push(wait);
    }
    assert_eq!(seen, vec![1_000, 2_000, 4_000, 8_000, 15_000, 15_000]);
    assert_eq!(next_backoff_ms(u64::MAX), MAX_BACKOFF_MS);
    assert_eq!(next_backoff_ms(0), 0);
}

#[test]
fn digests_are_sha_256() {
    assert_eq!(
        hex_encode(&digest_of(b"")),
        "e3b0c44298fc1c149afbf4c8996fb92427ae41e4649b934ca495991b7852b855"
    );
    assert_eq!(
        hex_encode(&digest_of(b"abc")),
        "ba7816bf8f01cfea414140de5dae2223b00361a396177a9cb410ff61f20015ad"
    );
    assert!(same_digest(&digest_of(b"abc"), &digest_of(b"abc")));
    assert!(!same_digest(&digest_of(b"abc"), &digest_of(b"abd")));
}

#[test]
fn ranges_are_hashed_piece_by_piece() {
    let data: Vec<u8> = (0..1000_u32).map(|n| (n % 251) as u8).collect();
    let mut range = RangeHash::new(1000);
    assert_eq!(range.next_read_len(), 1000);
    assert!(range.feed(&data[..1]));
    assert!(range.feed(&data[1..700]));
    assert_eq!(range.next_read_len(), 300);
    assert!(!range.feed(&[]));
    assert!(!range.feed(&data[..301]));
    assert!(range.feed(&data[700..]));
    assert_eq!(range.next_read_len(), 0);
    assert!(!range.feed(&data[..1]));
    assert_eq!(range.finish(), digest_of(&data));
    let mut whole = RangeHash::to_end();
    assert_eq!(whole.next_read_len(), HASH_READ_BUFFER_SIZE);
    assert!(whole.feed(&data));
    assert_eq!(whole.finish(), digest_of(&data));
}

#[test]
fn hex_text_of_bytes() {
    assert_eq!(hex_encode(&[]), "");
    assert_eq!(hex_encode(&[0, 9, 10, 171, 255]), "00090aabff");
}
