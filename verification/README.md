# fortress_rollback

The core of a rollback-networking library, verified with Verus: frame
numbers and player handles, the per-player input queue with frame delay,
prediction and misprediction detection, deterministic FNV-1a hashing and
Fletcher-16 checksums, the error types with their exact messages, and
session and peer metrics.

## Layout

- `src/` — the verified library.
  - `frame.rs`, `frame_order.rs` — `Frame` and `PlayerHandle`, their
    arithmetic, conversions and ordering.
  - `input_queue.rs` — the ring buffer of inputs. Its state is modelled by
    `QueueView`; `wf` is its invariant. Every operation states its effect on
    the view, and the `law_*` proof functions state what holds across
    operations (an accepted input is read back as confirmed, a delay
    increase keeps the input sequence, a misprediction is flagged, a
    repositioned queue predicts its preserved input, an accepted input stays
    retrievable through later operations until a ring of frames follows).
  - `hash.rs`, `checksum.rs` — FNV-1a and Fletcher-16 over bytes.
  - `error.rs`, `text.rs` — error types; `to_string` returns exactly the
    text given by `text()`.
  - `seconds.rs` — a frame count at a frame rate in hundredths of a second,
    rounded as the `f64` quotient is printed, computed in integers.
  - `metrics.rs` — saturating counters, histogram and per-kind breakdowns.
- `app/` — ordinary Rust around the library: the session `Config` trait and
  events, JSON output, checksums of serializable states, serializable copies
  of library types.
- `tests/` — tests of the library.
