# keystack-core

The core of KeyStack, a small key management system, written in Verus.

- `backend`: the key-value store that holds secrets (`Backend`, the in-memory
  `HashMapBackend`) and its view through one key path (`ScopedBackend`).
- `provider`: cryptographic providers; `libcrux_ed25519` generates Ed25519
  keys and signs with them through libcrux.
- `id_manager`, `id_provider`, `user`: authentication of the user of a request.
- `processor`, `plugin`, `context_provider`: hooks that see a request before its
  action; `wasm_context_provider` runs such a hook in a WebAssembly guest with
  wasmtime (a fresh instance per call; modules are compiled with fuel metering
  on, and each call may spend a bounded amount of fuel), and `wasm_guest` is
  the guest's side of that exchange (with
  `hook_signature`, which decides which functions the attribute accepts).
- `secret_provider`, `crypto_provider`: the same roles as backend and provider,
  over a store of secrets.
- `lib.rs`: key paths and the `KeyStack`, which authenticates a request, runs its
  pre-processors and hands the action to a provider.

`app/` holds what handles raw guest memory and the `pre_action_hook` attribute
macro, which work on pointers and on compiler token streams. The macro is the
body of an attribute that a proc-macro crate registers; this package is a
library and does not register it.
