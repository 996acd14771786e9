# android_event_loop

The event loop of an Android application, written in Verus: which events the
application's handler gets and in which order, how long the loop may sleep, when
redraws are carried out, and how a run ends.

The loop is a state machine. It asks for one piece of outside work at a time
(call the handler, poll the looper, read an input event, read the clock) and goes
on with the answer, so that all of its decisions are verified and none of them
depends on a device.

- `src/machine.rs` is the state machine, with `next` as its transition function.
- `src/input.rs`, `src/time.rs`, `src/dpi.rs` hold the rules for input events,
  timeouts and screen sizes; `src/event.rs` what the handler is told.
- `src/queue.rs` and `src/flag.rs` are what other threads share with the loop: the
  queue of user events and the redraw flag. `src/receiving.rs` is the receiving end
  of the queue's channel, with a record of what came out of it.
- `src/event_loop.rs` puts the machine, the queue and the flag together.
- `src/window.rs`, `src/monitor.rs`, `src/error.rs` are the window and the screen.
- `src/trace.rs` and `src/laws.rs` state what holds of every run, `src/history.rs`
  what holds of every history of the queue.
- `app/` drives the loop with `android_activity` on a device. It converts values
  and does what the machine asks for; it decides nothing.

Contracts that are believed without proof are those of `std::sync::mpsc` in
`src/receiving.rs` and `src/queue.rs`, and of `raw_window_handle` in
`src/window.rs`.

Of the dependencies, `android-activity`, `ndk`, `log` and `once_cell` serve `app/`
alone. `ndk` is named for its feature `rwh_05`, by which a native window gives out
the raw handle that `raw-window-handle` 0.5 defines.
