# anvi

A resident host that edits the text fields of other Windows applications in Neovim and writes back
what was saved.

- `src/` is the library: the host's decisions, written in Verus. What each function does is stated
  in its contract; what holds of several of them together is stated by the public proof functions
  whose names begin with `law_`.
- `app/` drives Neovim's process and connection, the editor window and the log by what the library
  says is to be done next. `app/main.rs` is a host on the console; `app/resident.rs` is the one that
  stays in the background.
- `tests/` runs the library on concrete values.

The library trusts one function of the standard library (`String::push`, in `src/text.rs`) and
three of winit (the modifier keys of a `ModifiersState`, in `src/keys.rs`).
