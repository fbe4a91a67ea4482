//! The wire format spoken over a vsock connection: every message is preceded
//! by its length as a little-endian `u64`, and bytes are moved with repeated
//! `send`/`recv` calls until the announced length has been transferred.

use byteorder::{ByteOrder, LittleEndian};
use vstd::prelude::*;

verus! {

/// Number of bytes of the length header that precedes every message.
pub const LEN_HEADER_SIZE: usize = 8;

/// The eight bytes of `n`, least significant byte first.
pub open spec fn le_bytes(n: u64) -> Seq<u8> {
    seq![
        (n & 0xff) as u8,
        ((n >> 8u64) & 0xff) as u8,
        ((n >> 16u64) & 0xff) as u8,
        ((n >> 24u64) & 0xff) as u8,
        ((n >> 32u64) & 0xff) as u8,
        ((n >> 40u64) & 0xff) as u8,
        ((n >> 48u64) & 0xff) as u8,
        ((n >> 56u64) & 0xff) as u8,
    ]
}

/// The number whose little-endian bytes are the first eight bytes of `b`.
pub open spec fn le_value(b: Seq<u8>) -> u64
    recommends
        b.len() >= 8,
{
    (b[0] as u64) | (b[1] as u64) << 8u64 | (b[2] as u64) << 16u64 | (b[3] as u64) << 24u64 | (
    b[4] as u64) << 32u64 | (b[5] as u64) << 40u64 | (b[6] as u64) << 48u64 | (b[7] as u64)
        << 56u64
}

/// Calls `byteorder::LittleEndian::write_u64`, which stores `n` in the first
/// eight bytes of the buffer, least significant byte first.
#[verifier::external_body]
fn write_u64_le(buf: &mut [u8; 8], n: u64)
    ensures
        final(buf)@ == le_bytes(n),
{
    LittleEndian::write_u64(buf, n)
}

/// Calls `byteorder::LittleEndian::read_u64`, which reads the first eight
/// bytes of the buffer as a little-endian number.
#[verifier::external_body]
fn read_u64_le(buf: &[u8; 8]) -> (n: u64)
    ensures
        n == le_value(buf@),
{
    LittleEndian::read_u64(buf)
}

/// The header that announces a message of `val` bytes: what `send_u64` puts
/// on the wire.
pub fn encode_u64(val: u64) -> (buf: [u8; 8])
    ensures
        buf@ == le_bytes(val),
{
    let mut buf = [0u8;8];
    write_u64_le(&mut buf, val);
    buf
}

/// The length announced by a received header: what `recv_u64` returns.
pub fn decode_u64(buf: &[u8; 8]) -> (val: u64)
    ensures
        val == le_value(buf@),
{
    read_u64_le(buf)
}

/// Decoding an encoded header gives back the number that was encoded.
pub proof fn lemma_decode_encode(n: u64)
    ensures
        le_value(le_bytes(n)) == n,
{
    let b = le_bytes(n);
    let b0 = b[0];
    let b1 = b[1];
    let b2 = b[2];
    let b3 = b[3];
    let b4 = b[4];
    let b5 = b[5];
    let b6 = b[6];
    let b7 = b[7];
    assert(b0 == (n & 0xff) as u8 && b1 == ((n >> 8u64) & 0xff) as u8 && b2 == ((n >> 16u64)
        & 0xff) as u8 && b3 == ((n >> 24u64) & 0xff) as u8 && b4 == ((n >> 32u64) & 0xff) as u8
        && b5 == ((n >> 40u64) & 0xff) as u8 && b6 == ((n >> 48u64) & 0xff) as u8 && b7 == ((n
        >> 56u64) & 0xff) as u8 ==> (b0 as u64) | (b1 as u64) << 8u64 | (b2 as u64) << 16u64 | (
    b3 as u64) << 24u64 | (b4 as u64) << 32u64 | (b5 as u64) << 40u64 | (b6 as u64) << 48u64 | (
    b7 as u64) << 56u64 == n) by (bit_vector);
}

/// Encoding the value read from eight bytes gives back those bytes.
pub proof fn lemma_encode_decode(b: Seq<u8>)
    requires
        b.len() == 8,
    ensures
        le_bytes(le_value(b)) == b,
{
    let b0 = b[0];
    let b1 = b[1];
    let b2 = b[2];
    let b3 = b[3];
    let b4 = b[4];
    let b5 = b[5];
    let b6 = b[6];
    let b7 = b[7];
    let n = le_value(b);
    assert(n == (b0 as u64) | (b1 as u64) << 8u64 | (b2 as u64) << 16u64 | (b3 as u64) << 24u64
        | (b4 as u64) << 32u64 | (b5 as u64) << 40u64 | (b6 as u64) << 48u64 | (b7 as u64)
        << 56u64 ==> b0 == (n & 0xff) as u8 && b1 == ((n >> 8u64) & 0xff) as u8 && b2 == ((n
        >> 16u64) & 0xff) as u8 && b3 == ((n >> 24u64) & 0xff) as u8 && b4 == ((n >> 32u64)
        & 0xff) as u8 && b5 == ((n >> 40u64) & 0xff) as u8 && b6 == ((n >> 48u64) & 0xff) as u8
        && b7 == ((n >> 56u64) & 0xff) as u8) by (bit_vector);
    assert(le_bytes(n) =~= b);
}

/// Converts a length announced on the wire into a `usize` with
/// `usize::try_from`, which succeeds exactly when the value fits; the error
/// is rendered with its `Debug` form.
#[verifier::external_body]
fn u64_to_usize(len: u64) -> (res: Result<usize, String>)
    ensures
        res is Ok <==> len <= usize::MAX,
        res matches Ok(n) ==> n == len,
{
    usize::try_from(len).map_err(|err| format!("{:?}", err))
}

/// What one `send` or `recv` call on the socket reported.
pub enum IoOutcome {
    /// The call moved this many bytes.
    Transferred(usize),
    /// The call was interrupted by a signal (`EINTR`) and moved nothing.
    Interrupted,
    /// The call failed; the text describes the error.
    Failed(String),
}

/// Progress of moving exactly `len` bytes through a connection-oriented
/// socket, one `send` or `recv` call at a time.
pub struct Transfer {
    len: usize,
    done: usize,
}

impl Transfer {
    /// Number of bytes to move.
    pub closed spec fn spec_len(&self) -> nat {
        self.len as nat
    }

    /// Number of bytes moved so far.
    pub closed spec fn spec_done(&self) -> nat {
        self.done as nat
    }

    /// Never more bytes moved than asked for.
    pub closed spec fn wf(&self) -> bool {
        self.done <= self.len
    }

    /// Starts a transfer of `len` bytes; fails, as `send_loop` and
    /// `recv_loop` do, when `len` does not fit in a `usize`.
    pub fn new(len: u64) -> (res: Result<Transfer, String>)
        ensures
            res is Ok <==> len <= usize::MAX,
            res matches Ok(t) ==> t.wf() && t.spec_len() == len && t.spec_done() == 0,
    {
        let len = u64_to_usize(len)?;
        Ok(Transfer { len, done: 0 })
    }

    /// Whether all bytes have been moved: the loop stops here.
    pub fn is_complete(&self) -> (b: bool)
        requires
            self.wf(),
        ensures
            b <==> self.spec_done() == self.spec_len(),
    {
        self.done >= self.len
    }

    /// The range of the buffer still to be moved by the next call.
    pub fn pending(&self) -> (range: (usize, usize))
        requires
            self.wf(),
        ensures
            range.0 == self.spec_done(),
            range.1 == self.spec_len(),
    {
        (self.done, self.len)
    }

    /// Takes note of what one call reported. An interrupted call moves
    /// nothing and the transfer goes on; a failed call ends the transfer
    /// with its error.
    pub fn record(&mut self, outcome: IoOutcome) -> (res: Result<(), String>)
        requires
            old(self).wf(),
            old(self).spec_done() < old(self).spec_len(),
            outcome matches IoOutcome::Transferred(n) ==> n <= old(self).spec_len() - old(
                self,
            ).spec_done(),
        ensures
            final(self).wf(),
            final(self).spec_len() == old(self).spec_len(),
            match outcome {
                IoOutcome::Transferred(n) => res is Ok && final(self).spec_done() == old(
                    self,
                ).spec_done() + n,
                IoOutcome::Interrupted => res is Ok && final(self).spec_done() == old(
                    self,
                ).spec_done(),
                IoOutcome::Failed(msg) => res == Err::<(), String>(msg) && final(self).spec_done()
                    == old(self).spec_done(),
            },
    {
        match outcome {
            IoOutcome::Transferred(n) => {
                self.done = self.done + n;
                Ok(())
            },
            IoOutcome::Interrupted => Ok(()),
            IoOutcome::Failed(msg) => Err(msg),
        }
    }
}

} // verus!
