use zellij_send_keys::{
    PaneInfo, PaneRecord, PaneTarget, PaneType, PluginState, SendKeysMessage, SendKeysOutcome,
    TimerAction,
};

fn record(id: u32, title: &str, is_plugin: bool, is_suppressed: bool) -> PaneRecord {
    PaneRecord {
        id,
        title: title.to_string(),
        is_focused: false,
        is_plugin,
        is_suppressed,
    }
}

fn message(pane_id: u32, text: &str, send_enter: bool, pane_type: PaneType) -> SendKeysMessage {
    SendKeysMessage {
        pane_id,
        text: text.to_string(),
        send_enter,
        pane_type,
    }
}

fn state_with(records: &[PaneRecord]) -> PluginState {
    let mut state = PluginState::default();
    assert!(state.on_pane_update(records));
    state
}

#[test]
fn pane_update_keeps_unsuppressed_panes_in_order() {
    let state = state_with(&[
        record(1, "shell", false, false),
        record(2, "hidden", false, true),
        record(3, "status", true, false),
    ]);
    assert_eq!(state.panes.len(), 2);
    assert_eq!(state.panes[0].id, 1);
    assert_eq!(state.panes[0].name.as_deref(), Some("shell"));
    assert_eq!(state.panes[1].id, 3);
    assert!(state.panes[1].is_plugin);
}

#[test]
fn send_without_payload_is_refused() {
    let mut state = state_with(&[record(1, "shell", false, false)]);
    match state.handle_send_keys(None) {
        SendKeysOutcome::Refused { log } => assert_eq!(log, "send_keys: No payload provided"),
        other => panic!("unexpected {:?}", other),
    }
    assert!(state.last_message.is_none());
    assert!(state.pending_enter.is_empty());
}

#[test]
fn send_with_decoder_error_is_refused() {
    let mut state = state_with(&[record(1, "shell", false, false)]);
    match state.handle_send_keys(Some(Err("EOF while parsing a value".to_string()))) {
        SendKeysOutcome::Refused { log } => assert_eq!(
            log,
            "send_keys: Failed to parse JSON: EOF while parsing a value"
        ),
        other => panic!("unexpected {:?}", other),
    }
}

#[test]
fn send_to_missing_pane_is_refused() {
    let mut state = state_with(&[record(1, "shell", false, false)]);
    match state.handle_send_keys(Some(Ok(message(1, "x", true, PaneType::Plugin)))) {
        SendKeysOutcome::Refused { log } => assert_eq!(
            log,
            "send_keys: Pane ID 1 (type: Plugin) not found in cached panes"
        ),
        other => panic!("unexpected {:?}", other),
    }
    assert!(state.pending_enter.is_empty());
}

#[test]
fn send_with_enter_queues_target_and_timer_delivers_it() {
    let mut state = state_with(&[record(2, "shell", false, false)]);
    match state.handle_send_keys(Some(Ok(message(2, "ls", true, PaneType::Terminal)))) {
        SendKeysOutcome::Deliver {
            text_bytes,
            target,
            start_enter_timer,
            log,
        } => {
            assert_eq!(text_bytes, b"ls".to_vec());
            assert_eq!(target, PaneTarget::Terminal(2));
            assert!(start_enter_timer);
            assert_eq!(log, "send_keys: Sent to pane 2 (type: Terminal, enter: true)");
        }
        other => panic!("unexpected {:?}", other),
    }
    assert_eq!(
        state.last_message.as_deref(),
        Some("Sending to pane 2 (type: Terminal, enter: true)")
    );
    assert_eq!(state.pending_enter.len(), 1);
    match state.on_timer() {
        TimerAction::SendEnter { target, bytes } => {
            assert_eq!(target, PaneTarget::Terminal(2));
            assert_eq!(bytes, vec![b'\r']);
        }
        other => panic!("unexpected {:?}", other),
    }
    assert!(state.pending_enter.is_empty());
    assert!(matches!(state.on_timer(), TimerAction::Nothing));
}

#[test]
fn send_without_enter_queues_nothing() {
    let mut state = state_with(&[record(9, "tool", true, false)]);
    match state.handle_send_keys(Some(Ok(message(9, "cmd", false, PaneType::Plugin)))) {
        SendKeysOutcome::Deliver {
            start_enter_timer, ..
        } => assert!(!start_enter_timer),
        other => panic!("unexpected {:?}", other),
    }
    assert!(state.pending_enter.is_empty());
}

#[test]
fn enter_for_closed_pane_is_skipped() {
    let mut state = state_with(&[record(2, "shell", false, false)]);
    let _ = state.handle_send_keys(Some(Ok(message(2, "ls", true, PaneType::Terminal))));
    assert!(state.on_pane_update(&[record(3, "other", false, false)]));
    match state.on_timer() {
        TimerAction::PaneClosed { target } => assert_eq!(target, PaneTarget::Terminal(2)),
        other => panic!("unexpected {:?}", other),
    }
}

#[test]
fn enters_are_delivered_in_request_order() {
    let mut state = state_with(&[
        record(1, "a", false, false),
        record(2, "b", false, false),
    ]);
    let _ = state.handle_send_keys(Some(Ok(message(2, "x", true, PaneType::Terminal))));
    let _ = state.handle_send_keys(Some(Ok(message(1, "y", true, PaneType::Terminal))));
    let mut order = Vec::new();
    for _ in 0..2 {
        match state.on_timer() {
            TimerAction::SendEnter { target, .. } => order.push(target),
            other => panic!("unexpected {:?}", other),
        }
    }
    assert_eq!(order, vec![PaneTarget::Terminal(2), PaneTarget::Terminal(1)]);
}

#[test]
fn too_long_text_is_refused_by_the_plugin() {
    let mut state = state_with(&[record(1, "shell", false, false)]);
    let long_text = "b".repeat(65537);
    match state.handle_send_keys(Some(Ok(message(1, &long_text, false, PaneType::Terminal)))) {
        SendKeysOutcome::Refused { log } => assert_eq!(
            log,
            "send_keys: Text too long: 65537 bytes (max: 65536 bytes)"
        ),
        other => panic!("unexpected {:?}", other),
    }
}

#[test]
fn display_lists_terminal_panes_only() {
    let mut state = PluginState::default();
    state.panes = vec![
        PaneInfo {
            id: 1,
            name: Some("shell".to_string()),
            is_focused: true,
            is_plugin: false,
        },
        PaneInfo {
            id: 2,
            name: None,
            is_focused: false,
            is_plugin: false,
        },
        PaneInfo {
            id: 3,
            name: Some("plugin".to_string()),
            is_focused: false,
            is_plugin: true,
        },
    ];
    state.last_message = Some("Sending to pane 1 (type: Terminal, enter: false)".to_string());
    let lines = state.display();
    let expected = vec![
        "=== zellij-send-keys ===",
        "",
        "Last message: Sending to pane 1 (type: Terminal, enter: false)",
        "",
        "Available panes (2):",
        "  - ID: 1, Name: shell [focused]",
        "  - ID: 2, Name: (unnamed)",
        "",
        "Usage:",
        "  zellij action pipe --plugin file:zellij-send-keys.wasm \\",
        "    --name send_keys -- '{\"pane_id\": 1, \"text\": \"hello\", \"send_enter\": true, \"pane_type\": \"terminal\"}'",
    ];
    assert_eq!(lines, expected);
}

#[test]
fn display_without_message_or_panes() {
    let state = PluginState::default();
    let lines = state.display();
    assert_eq!(lines.len(), 8);
    assert_eq!(lines[2], "");
    assert_eq!(lines[3], "Available panes (0):");
}
