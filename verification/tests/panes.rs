use zellij_send_keys::{
    dispatch_pipe_command, pending_enter_target_exists, PaneInfo, PaneTarget, PaneType,
    PipeCommand,
};

fn pane(id: u32, is_plugin: bool) -> PaneInfo {
    PaneInfo {
        id,
        name: None,
        is_focused: false,
        is_plugin,
    }
}

#[test]
fn pane_info_matches_terminal() {
    let pane = PaneInfo {
        id: 1,
        is_plugin: false,
        ..Default::default()
    };
    assert!(pane.matches(1, PaneType::Terminal));
    assert!(!pane.matches(1, PaneType::Plugin));
    assert!(!pane.matches(2, PaneType::Terminal));
}

#[test]
fn pane_info_matches_plugin() {
    let pane = PaneInfo {
        id: 5,
        is_plugin: true,
        ..Default::default()
    };
    assert!(pane.matches(5, PaneType::Plugin));
    assert!(!pane.matches(5, PaneType::Terminal));
}

#[test]
fn pane_info_matches_double_mismatch() {
    let pane = PaneInfo {
        id: 1,
        is_plugin: false,
        ..Default::default()
    };
    assert!(!pane.matches(999, PaneType::Plugin));
}

#[test]
fn dispatch_send_keys_command() {
    assert_eq!(dispatch_pipe_command("send_keys"), PipeCommand::SendKeys);
}

#[test]
fn dispatch_list_panes_command() {
    assert_eq!(dispatch_pipe_command("list_panes"), PipeCommand::ListPanes);
}

#[test]
fn dispatch_unknown_command() {
    assert_eq!(dispatch_pipe_command("frobnicate"), PipeCommand::Unknown);
    assert_eq!(dispatch_pipe_command(""), PipeCommand::Unknown);
    // Case sensitivity: the dispatcher matches exact lowercase names only.
    assert_eq!(dispatch_pipe_command("SEND_KEYS"), PipeCommand::Unknown);
}

#[test]
fn dispatch_near_miss_names_are_unknown() {
    assert_eq!(dispatch_pipe_command("send_keys "), PipeCommand::Unknown);
    assert_eq!(dispatch_pipe_command("send_key"), PipeCommand::Unknown);
    assert_eq!(dispatch_pipe_command("list_panes\n"), PipeCommand::Unknown);
    assert_eq!(dispatch_pipe_command("séñd_keys"), PipeCommand::Unknown);
}

#[test]
fn pane_target_from_type() {
    assert_eq!(
        PaneTarget::from_type(7, PaneType::Terminal),
        PaneTarget::Terminal(7)
    );
    assert_eq!(
        PaneTarget::from_type(7, PaneType::Plugin),
        PaneTarget::Plugin(7)
    );
}

#[test]
fn pane_target_matches_pane_respects_type() {
    let term = PaneTarget::Terminal(3);
    assert!(term.matches_pane(3, false));
    assert!(!term.matches_pane(3, true)); // same id, but plugin
    assert!(!term.matches_pane(4, false)); // different id

    let plugin = PaneTarget::Plugin(3);
    assert!(plugin.matches_pane(3, true));
    assert!(!plugin.matches_pane(3, false)); // same id, but terminal
}

#[test]
fn pending_enter_exists_when_pane_present() {
    let panes = vec![pane(1, false), pane(2, true)];
    assert!(pending_enter_target_exists(PaneTarget::Terminal(1), &panes));
    assert!(pending_enter_target_exists(PaneTarget::Plugin(2), &panes));
}

#[test]
fn pending_enter_absent_when_pane_closed() {
    let panes = vec![pane(1, false)];
    // pane closed
    assert!(!pending_enter_target_exists(
        PaneTarget::Terminal(99),
        &panes
    ));
    // wrong type for an existing id
    assert!(!pending_enter_target_exists(PaneTarget::Plugin(1), &panes));
}

#[test]
fn pending_enter_absent_for_empty_panes() {
    let panes: Vec<PaneInfo> = vec![];
    assert!(!pending_enter_target_exists(
        PaneTarget::Terminal(1),
        &panes
    ));
}

#[test]
fn pane_type_defaults_to_terminal() {
    assert_eq!(PaneType::default(), PaneType::Terminal);
}

#[test]
fn pane_match_agrees_with_target_on_concrete_panes() {
    // The law behind `pane_match_agrees_with_target`, on every combination.
    for id in [0u32, 1, 7, u32::MAX] {
        for is_plugin in [false, true] {
            let p = pane(id, is_plugin);
            for asked in [0u32, 1, 7, u32::MAX] {
                for ty in [PaneType::Terminal, PaneType::Plugin] {
                    assert_eq!(
                        p.matches(asked, ty),
                        PaneTarget::from_type(asked, ty).matches_pane(p.id, p.is_plugin)
                    );
                }
            }
        }
    }
}
