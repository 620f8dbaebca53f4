# gdbstub

The packet-handling core of a GDB Remote Serial Protocol stub, verified with
Verus.

- `src/` is the library. Each handler takes the stub's state, the command's
  fields and what the target answered, and records the response it writes as
  a sequence of writer operations (`response::Response`). Its contract states
  that sequence, the handler's result and the stub's new state exactly.
  - `stub/mod.rs`: the stub's state and the "any thread" choice.
  - `stub/core_impl/base.rs`: handshake (`qSupported`, `QStartNoAckMode`),
    `?`, `qAttached`, registers (`g`, `G`), memory (`m` as a step-by-step read,
    `M`), `k`/`vKill`, `D`, threads (`H`, `qfThreadInfo`, `qsThreadInfo`, `T`).
  - `stub/core_impl/{auxv, section_offsets, monitor_cmd}.rs`: the
    `qXfer:auxv:read`, `qOffsets` and `qRcmd` packets.
  - `arch.rs`: addresses in the target's width, with `num-traits` casts.
- `app/` asks the target, drives the handlers and sends what they record over
  the connection.
- `tests/` runs the handlers on concrete values.
