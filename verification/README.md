# pinple_pc_agent

Desktop agent that notices when a worker's PC is not used during working time
and lets the worker explain the idle segments. This crate holds its decision
logic, written in Verus with contracts proved by the verifier.

## Layout

- `src/` — the verified library.
  - `platform/monitor/idle_detector.rs` — the polling decisions (open a segment
    once idle time reaches the threshold, close it after a grace period, the
    lunch window and its daily allowance), with the laws that tie them together.
  - `lunch.rs`, `time.rs`, `util.rs` — lunch classification, company-clock
    arithmetic and display texts.
  - `domain/` — the models, the session caches and the login steps.
  - `platform/sync/`, `sync/` — intervals and outcomes of the background
    synchronisation (events, heartbeat, policy, user information, updates).
  - `ui/` — what the screens compute: the explanation list cache and tabs, the
    explanation form, the settings forms, routing.
  - `text.rs` — the string functions the rest is built on.
- `tests/` — tests run against the compiled library.
- `app/` — the program around the library: idle measurement, notifications,
  device identity, the credential store and the polling loop.
