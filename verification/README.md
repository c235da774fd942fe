# gnvim_ui

The core of a graphical user interface for Neovim, with its behaviour proved by
Verus.

* `src/` is the core. It knows what the interface knows (`state.rs`), and turns
  each event from Neovim (`event.rs`) into actions for the widgets and for
  Neovim (`action.rs`). Where a decision depends on what only the widgets know,
  such as the size of a cell, the core asks, and goes on with the answer. What
  comes of each event and each answer is stated in `model.rs`; what is so at all
  times is proved in `laws.rs` and `event_laws.rs`.
* `tests/` holds its tests.
* `app/` is the GTK front end. It makes the widgets, carries out the actions,
  answers the questions, and passes on what comes in.
