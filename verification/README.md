# ctp_md

The market-data half of a Rust binding to the CTP futures trading API, with the
decisions it takes between the native C++ library and its users written in Verus
and proved.

- `src/` is the verified library:
  - `codes` — booleans as the C side passes them, disconnection reasons, and the
    return codes of request calls;
  - `rsp` — the response information attached to replies, decoded into an outcome,
    and its text;
  - `registry` — which callback table the native API holds, the work that
    registering a new one or tearing the API down takes, and the proofs that this
    work never frees a table the native API may still call;
  - `output` — the callbacks as values, for an SPI that forwards them;
  - `ctp` — the calls into `ctp_common` and what is believed of each.
- `app/` holds what Verus does not see: the native entry points, the callback
  table handed to the C++ library, the `MdApi` that drives both, and the SPI
  implementations (printing, and forwarding over a channel).
- `tests/` runs the library on concrete values.

The records of the native API that market-data users handle, and `ctp_common`'s
C-string helpers, are re-exported by name. The rest of `ctp_common` (the other
records, the `THOST_FTDC_*` constants, its own error types) is reached by depending
on `ctp_common` directly.
