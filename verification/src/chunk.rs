//! Chunks of streamed data, each carried with the BLAKE2b-512 digest of its
//! bytes written as lower-case hexadecimal.

use blake2::{Blake2b512, Digest};
use vstd::prelude::*;
use vstd::slice::slice_to_vec;

verus! {

/// A piece of plaintext data and the hex digest of its bytes.
#[derive(Debug, Clone)]
pub struct Chunk {
    pub data: Vec<u8>,
    pub hash: String,
}

/// A piece of encrypted data with the hex digests of its plaintext and of
/// its ciphertext.
#[derive(Debug, Clone)]
pub struct ChunkEncrypted {
    pub data: Vec<u8>,
    pub hash_plaintext: String,
    pub hash_ciphertext: String,
}

/// The BLAKE2b-512 digest of `data`.
pub uninterp spec fn blake2b512(data: Seq<u8>) -> Seq<u8>;

/// Calls the `blake2` crate's `Blake2b512` hasher on `data` and returns the
/// 64 bytes of the digest; what the digest is, is left to the name
/// `blake2b512`.
#[verifier::external_body]
fn blake2b512_digest(data: &[u8]) -> (digest: Vec<u8>)
    ensures
        digest@ == blake2b512(data@),
        digest@.len() == 64,
{
    let mut hasher = Blake2b512::new();
    hasher.update(data);
    hasher.finalize().to_vec()
}

/// The sixteen lower-case hexadecimal digits, in order.
pub open spec fn hex_digits() -> Seq<char> {
    "0123456789abcdef"@
}

/// `data` written in lower-case hexadecimal, two digits per byte, the high
/// half of each byte first.
pub open spec fn lower_hex(data: Seq<u8>) -> Seq<char>
    decreases data.len(),
{
    if data.len() == 0 {
        Seq::empty()
    } else {
        lower_hex(data.drop_last()) + seq![
            hex_digits()[(data.last() / 16) as int],
            hex_digits()[(data.last() % 16) as int],
        ]
    }
}

/// The code of the `i`-th hexadecimal digit: `0` to `9`, then `a` to `f`.
pub proof fn lemma_hex_digit_code(i: int)
    requires
        0 <= i < 16,
    ensures
        hex_digits()[i] as u32 == (if i < 10 { 48 + i } else { 87 + i }),
{
    reveal_strlit("0123456789abcdef");
    assert(hex_digits() =~= seq![
        '0', '1', '2', '3', '4', '5', '6', '7', '8', '9', 'a', 'b', 'c', 'd', 'e', 'f',
    ]);
}

/// Hexadecimal text has two digits per byte: the digits at `2k` and `2k + 1`
/// are the high and the low half of byte `k`.
pub proof fn lemma_lower_hex_layout(data: Seq<u8>)
    ensures
        lower_hex(data).len() == 2 * data.len(),
        forall|k: int|
            0 <= k < data.len() ==> {
                &&& lower_hex(data)[2 * k] == hex_digits()[(#[trigger] data[k] / 16) as int]
                &&& lower_hex(data)[2 * k + 1] == hex_digits()[(data[k] % 16) as int]
            },
    decreases data.len(),
{
    if data.len() > 0 {
        let p = data.drop_last();
        lemma_lower_hex_layout(p);
        assert forall|k: int| 0 <= k < data.len() implies {
            &&& lower_hex(data)[2 * k] == hex_digits()[(#[trigger] data[k] / 16) as int]
            &&& lower_hex(data)[2 * k + 1] == hex_digits()[(data[k] % 16) as int]
        } by {
            if k < p.len() {
                assert(p[k] == data[k]);
            }
        }
    }
}

/// Different bytes never give the same hexadecimal text.
pub proof fn lemma_lower_hex_injective(a: Seq<u8>, b: Seq<u8>)
    ensures
        lower_hex(a) == lower_hex(b) <==> a == b,
{
    if lower_hex(a) == lower_hex(b) {
        lemma_lower_hex_layout(a);
        lemma_lower_hex_layout(b);
        assert(a.len() == b.len());
        assert forall|k: int| 0 <= k < a.len() implies a[k] == b[k] by {
            let (x, y) = (a[k], b[k]);
            assert(lower_hex(a)[2 * k] == lower_hex(b)[2 * k]);
            assert(lower_hex(a)[2 * k + 1] == lower_hex(b)[2 * k + 1]);
            lemma_hex_digit_code((x / 16) as int);
            lemma_hex_digit_code((y / 16) as int);
            lemma_hex_digit_code((x % 16) as int);
            lemma_hex_digit_code((y % 16) as int);
            assert(x / 16 == y / 16);
            assert(x % 16 == y % 16);
        }
        assert(a =~= b);
    }
}

/// Writes `data` in lower-case hexadecimal, as `{:x}` formats a digest.
pub fn to_lower_hex(data: &[u8]) -> (s: String)
    ensures
        s@ == lower_hex(data@),
        s@.len() == 2 * data@.len(),
{
    let digits = "0123456789abcdef";
    proof {
        reveal_strlit("0123456789abcdef");
    }
    assert(digits.is_ascii());
    let mut s = String::new();
    let n = data.len();
    let mut i: usize = 0;
    assert(data@.take(0) =~= Seq::<u8>::empty());
    while i < n
        invariant
            n == data@.len(),
            i <= n,
            digits@ == hex_digits(),
            digits.is_ascii(),
            digits@.len() == 16,
            s@ == lower_hex(data@.take(i as int)),
            s@.len() == 2 * i,
        decreases n - i,
    {
        let b = data[i];
        let hi = (b / 16) as usize;
        let lo = (b % 16) as usize;
        s.append(digits.substring_ascii(hi, hi + 1));
        s.append(digits.substring_ascii(lo, lo + 1));
        assert(data@.take(i + 1).drop_last() =~= data@.take(i as int));
        assert(data@.take(i + 1).last() == b);
        assert(digits@.subrange(hi as int, hi + 1) =~= seq![hex_digits()[hi as int]]);
        assert(digits@.subrange(lo as int, lo + 1) =~= seq![hex_digits()[lo as int]]);
        assert(s@ =~= lower_hex(data@.take(i + 1)));
        i = i + 1;
    }
    assert(data@.take(n as int) =~= data@);
    s
}

/// The digest that accompanies `data`: its BLAKE2b-512 digest as 128
/// lower-case hexadecimal digits.
pub open spec fn hash_spec(data: Seq<u8>) -> Seq<char> {
    lower_hex(blake2b512(data))
}

/// The hash of a chunk is taken over all of its bytes: it is the hex text of
/// the BLAKE2b-512 digest of the whole input, so two inputs get the same
/// hash exactly when their full digests agree.
pub proof fn lemma_hash_covers_whole_input(a: Seq<u8>, b: Seq<u8>)
    ensures
        hash_spec(a) == lower_hex(blake2b512(a)),
        hash_spec(a) == hash_spec(b) <==> blake2b512(a) == blake2b512(b),
{
    lemma_lower_hex_injective(blake2b512(a), blake2b512(b));
}

/// Hashes `in_data` with BLAKE2b-512 and writes the digest in lower-case
/// hexadecimal.
pub fn hash_data(in_data: &[u8]) -> (hash: String)
    ensures
        hash@ == hash_spec(in_data@),
        hash@ == lower_hex(blake2b512(in_data@)),
        hash@.len() == 128,
{
    let digest = blake2b512_digest(in_data);
    to_lower_hex(digest.as_slice())
}

/// A chunk holding a copy of `in_data` and its digest.
pub fn produce_chunk(in_data: &[u8]) -> (chunk: Chunk)
    ensures
        chunk.data@ == in_data@,
        chunk.hash@ == hash_spec(in_data@),
        chunk.hash@ == lower_hex(blake2b512(in_data@)),
{
    Chunk { data: slice_to_vec(in_data), hash: hash_data(in_data) }
}

/// The chunk built from what one read of `buffer.len()` bytes reported: the
/// first `read` bytes of `buffer`, or no bytes where the read failed.
pub fn chunk_from_read(buffer: &[u8], read: Option<usize>) -> (chunk: Chunk)
    requires
        read matches Some(n) ==> n <= buffer@.len(),
    ensures
        chunk.data@ == match read {
            Some(n) => buffer@.take(n as int),
            None => Seq::<u8>::empty(),
        },
        chunk.hash@ == hash_spec(chunk.data@),
        chunk.hash@ == lower_hex(blake2b512(chunk.data@)),
{
    let n = match read {
        Some(n) => n,
        None => 0,
    };
    let part = vstd::slice::slice_subrange(buffer, 0, n);
    assert(part@ =~= buffer@.take(n as int));
    produce_chunk(part)
}

/// Whether a cipher for chunk data is available: none is implemented yet.
pub open spec fn encryption_available() -> bool {
    false
}

/// Encrypts chunk data. No cipher is implemented yet, so this must not be
/// called.
pub fn encrypt_data(in_data: &[u8]) -> (encrypted: Vec<u8>)
    requires
        encryption_available(),
{
    vstd::pervasive::unreached()
}

/// The encrypted chunk made of `encrypted`, the ciphertext of `in_data`:
/// it keeps the plaintext's digest and carries the ciphertext's own.
pub fn encrypted_chunk(in_data: &Chunk, encrypted: Vec<u8>) -> (chunk: ChunkEncrypted)
    ensures
        chunk.data@ == encrypted@,
        chunk.hash_plaintext@ == in_data.hash@,
        chunk.hash_ciphertext@ == hash_spec(encrypted@),
        chunk.hash_ciphertext@ == lower_hex(blake2b512(encrypted@)),
{
    let hash_ciphertext = hash_data(encrypted.as_slice());
    ChunkEncrypted { data: encrypted, hash_plaintext: in_data.hash.clone(), hash_ciphertext }
}

/// Encrypts the data of a chunk. It relies on `encrypt_data`, so it must not
/// be called either.
pub fn produce_encrypted_chunk(in_data: &Chunk) -> (chunk: ChunkEncrypted)
    requires
        encryption_available(),
{
    let encrypted_data = encrypt_data(in_data.data.as_slice());
    encrypted_chunk(in_data, encrypted_data)
}

} // verus!
