//! Verified core of a Zellij plugin that brings tmux-style `send-keys` to
//! Zellij: which pipe command was asked for, whether a `send_keys` request
//! names a pane that is known, what bytes go to that pane, and when a delayed
//! Enter key may still be delivered.

pub mod laws;
pub mod plugin;
pub mod resolve;
pub mod text;
pub mod types;

pub use plugin::{PaneRecord, PluginState, SendKeysOutcome, TimerAction};
pub use resolve::{
    check_send_keys_message, dispatch_pipe_command, pending_enter_target_exists, resolve_send_keys,
};
pub use types::{
    PaneInfo, PaneTarget, PaneType, PipeCommand, SendKeysMessage, SendKeysPlan, MAX_TEXT_BYTES,
};
