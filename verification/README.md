# darkproto

Verified core of the DarkProto enclave streaming tool.

- `src/` is the library, checked by Verus:
  - `cli_parser`: reading the matched command-line arguments of a subcommand
    (`--port`, `--cid`, ...) into `ServerArgs`, `ClientArgs` and `RxTxArgs`,
    with a decimal parser that accepts exactly what `str::parse::<u32>` does;
  - `vsock`: the little-endian length header that precedes every message and
    the bookkeeping of a transfer that needs several `send`/`recv` calls;
  - `stream`: the connection retry policy (exponential backoff), the client's
    request, the server's reading of a received buffer, and what the enclave
    relays for each received block;
  - `chunk`: data chunks with the hex BLAKE2b-512 digest of their bytes;
  - `swarm`: carriers of threshold key shares, encryption under the swarm's
    master key, and the meeting at which they pool decryption shares; any
    `threshold + 1` shares give back the encrypted message.
- `app/` is the command-line program: logging, argument definitions, the
  configuration file and the socket system calls. Started under the name
  `darkproto-swarm` (a link to the program), it runs the swarm
  demonstration instead.
- `tests/` exercises the library on concrete values.
