//! The decisions of the streaming endpoints: how a connection is retried,
//! what the client sends, and how the server reads what it received.

use crate::cli_parser::{ClientArgs, RxTxArgs};
use crate::config::AppConfig;
use crate::vsock::{encode_u64, le_bytes};
use vstd::arithmetic::power2::pow2;
use vstd::prelude::*;
use vstd::utf8::{decode_utf8, encode_utf8, valid_utf8};

verus! {

/// The CID that makes a listening socket accept connections from any CID.
pub const VMADDR_CID_ANY: u32 = 0xFFFFFFFF;

/// Size of the buffer a received block is read into.
pub const BUF_MAX_LEN: usize = 8192;

/// Maximum number of outstanding connections in a socket's listen queue.
pub const BACKLOG: usize = 128;

/// Maximum number of connection attempts.
pub const MAX_CONNECTION_ATTEMPTS: usize = 10;

/// The two strings `a` and `b` one after the other.
fn concat2(a: &str, b: &str) -> (s: String)
    ensures
        s@ == a@ + b@,
{
    let mut s = String::from_str(a);
    s.append(b);
    s
}

/// The error reported when a socket cannot be created; `desc` describes the
/// system error.
pub fn socket_error(desc: &str) -> (msg: String)
    ensures
        msg@ == "Failed to create socket: "@ + desc@,
{
    concat2("Failed to create socket: ", desc)
}

/// The retry policy of `vsock_connect`: up to `MAX_CONNECTION_ATTEMPTS`
/// attempts, waiting 1, 2, 4, ... seconds after each failed one; when all
/// have failed, the last failure is reported.
pub struct ConnectRetry {
    attempt: usize,
    err_msg: String,
}

impl ConnectRetry {
    /// Number of attempts that have failed so far.
    pub closed spec fn spec_failed(&self) -> nat {
        self.attempt as nat
    }

    /// The error reported if no attempt is left.
    pub closed spec fn spec_error(&self) -> Seq<char> {
        self.err_msg@
    }

    /// No more attempts than allowed have been made.
    pub closed spec fn wf(&self) -> bool {
        self.attempt <= MAX_CONNECTION_ATTEMPTS
    }

    /// Before the first attempt.
    pub fn new() -> (r: ConnectRetry)
        ensures
            r.wf(),
            r.spec_failed() == 0,
            r.spec_error() == Seq::<char>::empty(),
    {
        ConnectRetry { attempt: 0, err_msg: String::new() }
    }

    /// Whether another attempt may be made.
    pub fn has_attempt_left(&self) -> (b: bool)
        requires
            self.wf(),
        ensures
            b <==> self.spec_failed() < MAX_CONNECTION_ATTEMPTS,
    {
        self.attempt < MAX_CONNECTION_ATTEMPTS
    }

    /// Takes note of a failed attempt, whose error `desc` describes, and
    /// returns the number of seconds to wait before the next one: twice as
    /// long as after the previous failure, starting at one second.
    pub fn connect_failed(&mut self, desc: &str) -> (secs: u64)
        requires
            old(self).wf(),
            old(self).spec_failed() < MAX_CONNECTION_ATTEMPTS,
        ensures
            final(self).wf(),
            final(self).spec_failed() == old(self).spec_failed() + 1,
            final(self).spec_error() == "Failed to connect: "@ + desc@,
            secs == pow2(old(self).spec_failed()),
    {
        let shift = self.attempt as u64;
        proof {
            vstd::bits::lemma_u64_pow2_no_overflow(shift as nat);
            vstd::bits::lemma_u64_shl_is_mul(1, shift);
        }
        let secs = 1u64 << shift;
        self.err_msg = concat2("Failed to connect: ", desc);
        self.attempt = self.attempt + 1;
        secs
    }

    /// The error reported once no attempt is left.
    pub fn into_error(self) -> (msg: String)
        ensures
            msg@ == self.spec_error(),
    {
        self.err_msg
    }
}

/// Each wait of the retry policy is twice as long as the one before.
pub proof fn lemma_backoff_doubles(failed: nat)
    ensures
        pow2(failed + 1) == 2 * pow2(failed),
{
    vstd::arithmetic::power2::lemma_pow2_unfold(failed + 1);
}

/// What the client sends, and where to.
pub struct ClientRequest {
    pub cid: u32,
    pub port: u32,
    /// The length header sent first.
    pub header: [u8; 8],
    /// The message sent after the header.
    pub payload: Vec<u8>,
}

/// The request of the `client` mode: connect to the given CID and port and
/// send "Hello, world!" preceded by its length.
pub fn client(args: ClientArgs) -> (req: ClientRequest)
    ensures
        req.cid == args.cid,
        req.port == args.port,
        req.payload@ == encode_utf8("Hello, world!"@),
        req.header@ == le_bytes(req.payload@.len() as u64),
{
    let data = "Hello, world!";
    let buf = data.as_bytes();
    let payload = vstd::slice::slice_to_vec(buf);
    let len = payload.len() as u64;
    ClientRequest { cid: args.cid, port: args.port, header: encode_u64(len), payload }
}

/// The `Debug` text of the error `String::from_utf8` reports for `bytes`.
pub uninterp spec fn utf8_error_text(bytes: Seq<u8>) -> Seq<char>;

/// Decodes bytes as UTF-8 with `String::from_utf8`, which succeeds exactly
/// when the bytes are valid UTF-8; the error is rendered with its `Debug`
/// form, which depends on the bytes alone.
#[verifier::external_body]
fn string_from_utf8(bytes: Vec<u8>) -> (res: Result<String, String>)
    ensures
        res is Ok <==> valid_utf8(bytes@),
        res matches Ok(s) ==> s@ == decode_utf8(bytes@),
        res matches Err(e) ==> e@ == utf8_error_text(bytes@),
{
    String::from_utf8(bytes).map_err(|err| format!("{:?}", err))
}

/// The text the server prints for a received buffer: the whole buffer read
/// as UTF-8.
pub fn server_message(buf: Vec<u8>) -> (res: Result<String, String>)
    ensures
        res is Ok <==> valid_utf8(buf@),
        res matches Ok(s) ==> s@ == decode_utf8(buf@),
        res matches Err(e) ==> e@ == "The received bytes are not UTF-8: "@ + utf8_error_text(buf@),
{
    match string_from_utf8(buf) {
        Ok(s) => Ok(s),
        Err(e) => Err(concat2("The received bytes are not UTF-8: ", e.as_str())),
    }
}

/// What the enclave passes on for one received block: a header announcing
/// the whole receive buffer, then the whole buffer, however much of it the
/// block filled.
pub fn relay_block(buf: &[u8; BUF_MAX_LEN]) -> (out: ([u8; 8], Vec<u8>))
    ensures
        out.0@ == le_bytes(BUF_MAX_LEN as u64),
        out.1@ == buf@,
{
    let data = vstd::slice::slice_to_vec(buf.as_slice());
    (encode_u64(BUF_MAX_LEN as u64), data)
}

/// Whether the host mode is available: it is not implemented yet.
pub open spec fn host_mode_available() -> bool {
    false
}

/// Host mode: connect to the enclave, stream data to it, and receive what
/// it sends back. Not implemented yet, so this must not be called.
pub fn txrx(args: RxTxArgs, config: AppConfig) -> (res: Result<(), String>)
    requires
        host_mode_available(),
{
    vstd::pervasive::unreached()
}

} // verus!
