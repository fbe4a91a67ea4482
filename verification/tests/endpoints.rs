use darkproto::cli_parser::ClientArgs;
use darkproto::client;
use darkproto::stream::{server_message, socket_error, ConnectRetry, MAX_CONNECTION_ATTEMPTS};

#[test]
fn connect_backoff_doubles() {
    let mut retry = ConnectRetry::new();
    let mut waits = Vec::new();
    while retry.has_attempt_left() {
        waits.push(retry.connect_failed(&format!("attempt {}", waits.len())));
    }
    assert_eq!(waits, vec![1, 2, 4, 8, 16, 32, 64, 128, 256, 512]);
    assert_eq!(waits.len(), MAX_CONNECTION_ATTEMPTS);
    assert_eq!(retry.into_error(), "Failed to connect: attempt 9");
}

#[test]
fn connect_error_is_the_last_failure() {
    let mut retry = ConnectRetry::new();
    assert!(retry.has_attempt_left());
    assert_eq!(retry.connect_failed("Sys(ECONNREFUSED)"), 1);
    assert_eq!(retry.connect_failed("Sys(ETIMEDOUT)"), 2);
    assert_eq!(retry.into_error(), "Failed to connect: Sys(ETIMEDOUT)");
}

#[test]
fn no_failure_no_error_text() {
    assert_eq!(ConnectRetry::new().into_error(), "");
}

#[test]
fn socket_error_text() {
    assert_eq!(socket_error("Sys(EAFNOSUPPORT)"), "Failed to create socket: Sys(EAFNOSUPPORT)");
}

#[test]
fn client_sends_hello_world_with_its_length() {
    let req = client(ClientArgs { cid: 16, port: 5005 });
    assert_eq!(req.cid, 16);
    assert_eq!(req.port, 5005);
    assert_eq!(req.payload, b"Hello, world!".to_vec());
    assert_eq!(req.header, [13, 0, 0, 0, 0, 0, 0, 0]);
}

#[test]
fn server_prints_the_whole_buffer() {
    let mut buf = vec![0u8; 8];
    buf[..2].copy_from_slice(b"hi");
    assert_eq!(server_message(buf), Ok("hi\0\0\0\0\0\0".to_string()));
}

#[test]
fn server_rejects_invalid_utf8() {
    let err = server_message(vec![b'a', 0xff, b'b']).unwrap_err();
    assert!(err.starts_with("The received bytes are not UTF-8: "));
    assert_eq!(err, format!("The received bytes are not UTF-8: {:?}", String::from_utf8(vec![b'a', 0xff, b'b']).unwrap_err()));
}
