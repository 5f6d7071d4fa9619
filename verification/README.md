# ultrawm_core

The core of UltraWM, a tiling window manager, written in Verus: the decisions
the window manager takes are executable Rust with `requires`/`ensures`
contracts that Verus proves.

## Layout

- `src/` — the verified library.
  - `input`, `geometry`, `text`: keys and buttons held, rectangles, and the
    text handling the rest builds on (trimming, splitting, decimal numbers).
  - `config/`: key-binding strings (`InputCombo`, `Keybind`), the
    configuration with its defaults, and the commented configuration file
    text. `combo_round_trip` proves that a binding written out reads back as
    the same keys and buttons.
  - `drag_tracker`, `handle_tracker`, `event_handlers/`: the state machines
    that turn raw input events into drags, shortcuts and window actions.
  - `layouts/`: the container-tree snapshot used for tiling decisions and
    resize handles, even balancing, and restoring a saved layout.
  - `ai/`: the requests sent to the layout assistant and the handling of its
    answers.
  - `event_loop`, `event_loop_main`, `menu`, `accelerator`, `logging`,
    `coalescing_channel`: event dispatch, menus and shortcuts, log lines.
- `app/` — the program around the library: command line, files, HTTP,
  threads, logging output, and the floating-point container tree with its
  animations. Verus does not see it.
- `tests/` — tests of the library.
