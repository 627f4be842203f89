# chillffi

Isolated dynamic FFI: calls into native libraries that run in clones of a Main
Zygote, so that a crash concerns nothing but the call.

The library under `src/` decides, and is verified with Verus. It holds the state
of a Runtime as plain values; each function takes what came of the last step and
says what the next one is. Processes, channels, locks and native calls are under
`app/`, which performs the steps.

| Module | What it holds |
|---|---|
| `ffi` | libraries, call builders, requests, values, callbacks |
| `zygote` | the pool of processes, scopes, the supervisor |
| `platform` | the handshakes between the processes, the readings of the system |
| `limits`, `stats` | the ceiling on clones, the live counters |
| `tracePolicy` | whether requests are logged |
| `text`, `errors` | messages, down to the character |

What the library promises as a whole stands beside the functions as public proof
functions: that the clones never exceed the ceiling and that a full pool makes
callers wait rather than fail (`zygote`), that a crash is confined to its request
and that tracing alters nothing (`ffi::library`), that a callback arrives as it
was sent (`ffi::callback`), and others.

Calls into other crates go through small functions whose contracts are trusted:
the map of `fxhash` in `ffi::registry`, `bincode` in `ffi::callback::envelope`, and
two functions of the standard library in `ffi::types` and `platform::low`.
