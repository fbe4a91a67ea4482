use blake2::{Blake2b512, Digest};
use darkproto::chunk::{chunk_from_read, encrypted_chunk, to_lower_hex};
use darkproto::{hash_data, produce_chunk};

#[test]
fn hash_of_empty_input() {
    assert_eq!(
        hash_data(b""),
        "786a02f742015903c6c6fd852552d272912f4740e15847618a86e217f71f5419d25e1031afee585313896444934eb04b903a685b1448b755d56f701afe9be2ce"
    );
}

#[test]
fn hash_of_abc() {
    assert_eq!(
        hash_data(b"abc"),
        "ba80a53f981c4d0d6a2797b69f12f6e94c212f14685ac4b74b12bb6fdbffa2d17d87c5392aab792dc252d5de4533cc9518d38aa8dbf1925ab92386edd4009923"
    );
}

#[test]
fn hash_matches_the_digest_formatting() {
    let data = b"DarkProto streaming chunk";
    let expected = format!("{:16x}", Blake2b512::digest(data)).trim().to_string();
    assert_eq!(hash_data(data), expected);
    assert_eq!(hash_data(data).len(), 128);
}

#[test]
fn lower_hex_of_bytes() {
    assert_eq!(to_lower_hex(&[0x00, 0x0f, 0xa5, 0xff]), "000fa5ff");
    assert_eq!(to_lower_hex(&[]), "");
}

#[test]
fn chunk_holds_data_and_its_hash() {
    let chunk = produce_chunk(b"hello");
    assert_eq!(chunk.data, b"hello".to_vec());
    assert_eq!(chunk.hash, hash_data(b"hello"));
}

#[test]
fn same_data_same_hash() {
    assert_eq!(produce_chunk(&[1, 2, 3]).hash, produce_chunk(&[1, 2, 3]).hash);
    assert_ne!(produce_chunk(&[1, 2, 3]).hash, produce_chunk(&[1, 2, 4]).hash);
}

#[test]
fn chunk_from_a_read() {
    let buffer = [7u8; 16];
    let chunk = chunk_from_read(&buffer, Some(5));
    assert_eq!(chunk.data, vec![7u8; 5]);
    assert_eq!(chunk.hash, hash_data(&[7u8; 5]));
}

#[test]
fn chunk_from_a_failed_read_is_empty() {
    let buffer = [7u8; 16];
    let chunk = chunk_from_read(&buffer, None);
    assert!(chunk.data.is_empty());
    assert_eq!(chunk.hash, hash_data(&[]));
}

#[test]
fn encrypted_chunk_keeps_plaintext_hash() {
    let plain = produce_chunk(b"plaintext");
    let enc = encrypted_chunk(&plain, vec![9, 8, 7]);
    assert_eq!(enc.data, vec![9, 8, 7]);
    assert_eq!(enc.hash_plaintext, plain.hash);
    assert_eq!(enc.hash_ciphertext, hash_data(&[9, 8, 7]));
}
