//! Verified core of the DarkProto enclave streaming tool: argument parsing,
//! the length-prefixed wire format spoken over vsock, the transfer and
//! connection-retry decisions, data chunks with their BLAKE2b digests, and the
//! threshold-decryption meeting of a swarm of key-share carriers.

pub mod chunk;
pub mod cli_parser;
pub mod config;
pub mod stream;
pub mod swarm;
pub mod vsock;

pub use chunk::{encrypt_data, hash_data, produce_chunk, produce_encrypted_chunk, Chunk, ChunkEncrypted};
pub use stream::{client, txrx};
