# zellij-send-keys

A Zellij plugin that brings tmux's `send-keys` to Zellij: send text (and
optionally Enter) to any pane by ID, and list the panes.

- `src/` is the verified library (Verus):
  - `types.rs`: pane types, messages, targets, and the pane/target matchers;
  - `resolve.rs`: pipe command dispatch, the check of a decoded `send_keys`
    message (64 KiB byte limit), resolution of a request against the cached
    panes, and whether a queued Enter may still be delivered;
  - `plugin.rs`: the plugin's state machine (pane updates, `send_keys`
    requests, the Enter timer) and the lines of its display;
  - `text.rs`: decimal, boolean and pane-type text used in messages;
  - `laws.rs`: properties that relate these functions.
- `app/` is the WASM plugin itself: JSON decoding and encoding with serde,
  and the calls into Zellij's host API that the library's decisions ask for.
- `tests/` runs the library on concrete values.
