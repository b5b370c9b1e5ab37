# adobepy

The broker between Python clients and the bridges that run inside Adobe
applications, with its decisions proved in Verus.

- `src/` is the verified library. It does no input or output: operations that
  need the file system, a process or the network are split at that point. One
  function decides what to do, the caller does it, and another function takes
  what came back.
- `app/` performs what the library decides: the HTTP and WebSocket server, files,
  processes, the helper program and the Python module.
- `tests/` runs the library, with a table of bytes in place of a disk and a
  counter in place of a clock.

## Modules

| Module | Subject |
| --- | --- |
| `protocol`, `runtime`, `bootstrap_types`, `json` | Wire types and the JSON they are written as |
| `checks`, `identity`, `settings` | Validation of requests, claims and paths; the broker's own identity |
| `broker` | Sessions, dispatch, delivery, disconnection |
| `handshake` | How a bridge joins, with the one-time binding of a bootstrap |
| `bootstrap`, `bootstrap_call`, `bootstrap_outcome` | A bootstrap, step by step, and its outcomes |
| `attest`, `files`, `receipts`, `process` | What was found on the machine and whether it counts |
| `config`, `transaction` | Transactions on a plugin's configuration file |
| `helper`, `pool`, `host` | Helper processes, their frames, and processes that must be brought down |
| `outside` | Calls into `serde_json`, `sha2` and `uuid`, with what is believed of them |
| `table`, `text`, `bytes` | Small tools on collections, texts and bytes |
| `laws`, `history` | What holds of several operations together, and of whole bootstrap calls |

Time reaches the library as milliseconds on a clock of the caller's; random
identifiers are drawn by functions that have a counterpart, ending in `_as`,
which takes the identifier as an argument.
