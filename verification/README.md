# bitcoin-cli-rs

A command-line client for Bitcoin Core's JSON-RPC interface, built around a
library verified with Verus.

- `src/` is the verified library: configuration resolution and checks
  (`config`), the command line's values (`cli`), RPC URLs and wallet
  endpoints (`endpoint`), JSON parameters and request framing (`json`), the
  meaning of JSON-RPC responses and wallet errors (`rpc`, `error`), what the
  commands decide and print (`commands`), and text helpers (`text`).
- `app/` is the executable: argument parsing, the `.env` and TOML files, the
  HTTP transport, logging and printing.
- `tests/` runs the library on concrete values.
