# onepassword-sdk

A 1Password SDK whose logic is verified with Verus.

The SDK talks to the 1Password core — an embedded WASM binary run by
Extism, or the desktop app's shared library — by JSON messages. The
library in `src/` holds everything the SDK decides:

- `protocol`: the client configuration and invocation messages, their
  exact JSON text, the message size limit, and the reading of the core's
  responses (UTF-8 text, client ids).
- `client`: the client builder (exactly one way to authenticate), and the
  decisions of a call: a call whose desktop session expired is retried once
  on a client created anew.
- `errors`: the SDK's error type and how the core's JSON errors become
  typed errors.
- `secrets`, `items`, `items_files`, `items_shares`, `vaults`, `groups`,
  `environments`: the method and parameters of every request.
- `shared_lib`: where the desktop app's shared library is searched for, and
  how its calls report failure; `wasm_core`: the hosts the WASM core may
  reach.
- `encode`: the JSON form of the values sent in requests; an object lists
  its members in the order of their names, as serde_json's `Value` holds
  them.
- `wire`: JSON framing; serde_json writes and reads the scalar values.
- `types`, `permissions`: the values exchanged with the core.

`app/` runs the cores (Extism, libloading, host functions with getrandom
and chrono), holds the client state and its lock, and converts the SDK's
types to and from JSON through serde copies of them.
