# ironpass

The core of the IronPass VPN client as a Verus library: the functions in
`src/` are proved by Verus against their contracts, except the small
trusted wrappers around outside calls described below.

- `src/` — the verified library: proxy node models; SOCKS5, HTTP CONNECT,
  VLESS and Trojan request encoding and parsing; gRPC framing; the
  sing-box and Xray-core configuration generators; backend selection and
  the core-process supervisor; API client error mapping; configuration and subscription stores;
  split-tunnel rules; hardware-ID derivation; the node table, the
  subscription list and the analysis report; and `laws.rs`, the properties
  that tie these functions together.
- `tests/` — tests of the library, run against the real `sha2`, `hex`,
  `ipnet`, `uuid`, `base64`, `bytesize`, `chrono` and `dirs` crates.
- `app/` — the command-line client around the library: argument handling,
  files, serde copies of the library's types, running the proxy core and
  talking to the daemon.

Calls into outside crates, std's path and string functions and the file
system go through small trusted wrappers whose doc comments say what their
contracts assume; where an answer comes from the file system (whether a
file exists), the functions that use it state what holds whatever it was,
and a separate verified function decides from the answer.
