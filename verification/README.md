# net_comms

A framework that gives structure to data exchanged over a TCP connection: how
values are turned into bytes, how bytes are framed into packets, and how a
message is cut into packets and put together again.

- `src/` is the library, verified with Verus. Every public function states in its
  contract what it returns (what reads the clock is stated for every time the
  clock may give, beside a function that takes the time as an argument); the laws (public proof functions named `law_*`)
  state what holds across functions, such as reading back what was written, or
  receiving exactly the content that was sent.
- `tests/` runs the library on concrete values.
- `app/` holds what the library leaves to its caller: reading and writing
  `TcpStream`s, files and the terminal, the RON format, and copies of the
  library's types that carry serde's derives.

Two protocols are present. The main one (`packet`, `message`, `command`, ...)
frames packets with a two-byte size and a two-byte kind. The components protocol
(`components`) carries the data inside each packet's kind and writes sizes in
eight bytes.
