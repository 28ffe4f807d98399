use tray_console::menu::{ID_EXIT, ID_HIDE_LOGS, ID_LAUNCH_WORKER, ID_SHOW_LOGS};
use tray_console::{ConsoleOp, ConsoleState, ConsoleStep, LogsContextMenuButton, MenuCommand, MenuItem, Progress};

fn showing(step: ConsoleStep) -> ConsoleOp {
    ConsoleOp { command: LogsContextMenuButton::ShowLogs, step }
}

fn hiding(step: ConsoleStep) -> ConsoleOp {
    ConsoleOp { command: LogsContextMenuButton::HideLogs, step }
}

#[test]
fn command_ids_round_trip() {
    for c in [MenuCommand::ShowLogs, MenuCommand::HideLogs, MenuCommand::LaunchWorker, MenuCommand::Exit] {
        assert_eq!(MenuCommand::from_id(c.id()), Some(c));
    }
    assert_eq!(MenuCommand::ShowLogs.id(), 1);
    assert_eq!(MenuCommand::HideLogs.id(), 2);
    assert_eq!(MenuCommand::LaunchWorker.id(), 3);
    assert_eq!(MenuCommand::Exit.id(), 4);
    assert_eq!(ID_SHOW_LOGS, 1);
    assert_eq!(ID_HIDE_LOGS, 2);
    assert_eq!(ID_LAUNCH_WORKER, 3);
    assert_eq!(ID_EXIT, 4);
}

#[test]
fn unknown_command_id_is_none() {
    assert_eq!(MenuCommand::from_id(0), None);
    assert_eq!(MenuCommand::from_id(5), None);
    assert_eq!(MenuCommand::from_id(usize::MAX), None);
}

#[test]
fn labels() {
    assert_eq!(MenuCommand::ShowLogs.label(), "Show Logs");
    assert_eq!(MenuCommand::HideLogs.label(), "Hide Logs");
    assert_eq!(MenuCommand::LaunchWorker.label(), "Launch Worker");
    assert_eq!(MenuCommand::Exit.label(), "Exit");
}

#[test]
fn menu_layout_for_each_state() {
    let attached = ConsoleState::Attached.context_menu();
    assert_eq!(
        attached,
        vec![
            MenuItem::Entry(MenuCommand::HideLogs),
            MenuItem::Separator,
            MenuItem::Entry(MenuCommand::LaunchWorker),
            MenuItem::Separator,
            MenuItem::Entry(MenuCommand::Exit),
        ]
    );
    let detached = ConsoleState::Detached.context_menu();
    assert_eq!(detached[0], MenuItem::Entry(MenuCommand::ShowLogs));
    assert_eq!(&detached[1..], &attached[1..]);
}

#[test]
fn menu_has_exactly_one_toggle() {
    for s in [ConsoleState::Attached, ConsoleState::Detached] {
        let menu = s.context_menu();
        let toggles: Vec<&str> = menu
            .iter()
            .filter_map(|i| match i {
                MenuItem::Entry(c) if *c == MenuCommand::ShowLogs || *c == MenuCommand::HideLogs => Some(c.label()),
                _ => None,
            })
            .collect();
        let expected = if s == ConsoleState::Attached { "Hide Logs" } else { "Show Logs" };
        assert_eq!(toggles, vec![expected]);
    }
}

#[test]
fn initial_state_follows_inherited_console() {
    assert_eq!(ConsoleState::initial(true), ConsoleState::Attached);
    assert_eq!(ConsoleState::initial(false), ConsoleState::Detached);
    assert_eq!(ConsoleState::Attached.menu_button(), LogsContextMenuButton::HideLogs);
    assert_eq!(ConsoleState::Detached.menu_button(), LogsContextMenuButton::ShowLogs);
    assert_eq!(LogsContextMenuButton::ShowLogs.command(), MenuCommand::ShowLogs);
    assert_eq!(LogsContextMenuButton::HideLogs.command(), MenuCommand::HideLogs);
}

#[test]
fn every_change_begins_with_detach() {
    assert_eq!(ConsoleOp::begin(LogsContextMenuButton::ShowLogs), showing(ConsoleStep::Detach));
    assert_eq!(ConsoleOp::begin(LogsContextMenuButton::HideLogs), hiding(ConsoleStep::Detach));
}

#[test]
fn show_logs_sequence() {
    let s = ConsoleState::Detached;
    assert_eq!(showing(ConsoleStep::Detach).progress(false, s), Progress::Next(showing(ConsoleStep::Create)));
    assert_eq!(showing(ConsoleStep::Detach).progress(true, s), Progress::Next(showing(ConsoleStep::Create)));
    assert_eq!(showing(ConsoleStep::Create).progress(true, s), Progress::Next(showing(ConsoleStep::AttachCtrlCHandler)));
    assert_eq!(showing(ConsoleStep::AttachCtrlCHandler).progress(true, s), Progress::Next(showing(ConsoleStep::ReplayLogs)));
    assert_eq!(showing(ConsoleStep::ReplayLogs).progress(true, s), Progress::Done);
    assert_eq!(showing(ConsoleStep::Create).state_after(true, s), ConsoleState::Attached);
    assert_eq!(showing(ConsoleStep::Detach).state_after(true, ConsoleState::Attached), ConsoleState::Attached);
}

#[test]
fn show_logs_failures() {
    let s = ConsoleState::Detached;
    assert_eq!(showing(ConsoleStep::Create).progress(false, s), Progress::Failed(ConsoleStep::Create));
    assert_eq!(showing(ConsoleStep::Create).state_after(false, s), s);
    assert_eq!(showing(ConsoleStep::AttachCtrlCHandler).progress(false, s), Progress::Failed(ConsoleStep::AttachCtrlCHandler));
    assert_eq!(showing(ConsoleStep::ReplayLogs).progress(false, ConsoleState::Attached), Progress::Failed(ConsoleStep::ReplayLogs));
    assert_eq!(showing(ConsoleStep::ReplayLogs).state_after(false, ConsoleState::Attached), ConsoleState::Attached);
}

#[test]
fn hide_logs_sequence() {
    let s = ConsoleState::Attached;
    assert_eq!(hiding(ConsoleStep::Detach).progress(true, s), Progress::Next(hiding(ConsoleStep::AttachParent)));
    assert_eq!(hiding(ConsoleStep::Detach).state_after(true, s), ConsoleState::Detached);
    let d = ConsoleState::Detached;
    assert_eq!(hiding(ConsoleStep::AttachParent).progress(true, d), Progress::Next(hiding(ConsoleStep::AttachCtrlCHandler)));
    assert_eq!(hiding(ConsoleStep::AttachParent).progress(false, d), Progress::Done);
    assert_eq!(hiding(ConsoleStep::AttachCtrlCHandler).progress(true, d), Progress::Done);
    assert_eq!(hiding(ConsoleStep::AttachCtrlCHandler).progress(false, d), Progress::Failed(ConsoleStep::AttachCtrlCHandler));
}

#[test]
fn hide_logs_detach_failure_keeps_state() {
    let s = ConsoleState::Attached;
    assert_eq!(hiding(ConsoleStep::Detach).progress(false, s), Progress::Failed(ConsoleStep::Detach));
    assert_eq!(hiding(ConsoleStep::Detach).state_after(false, s), ConsoleState::Attached);
}

#[test]
fn detach_when_detached_is_harmless() {
    let d = ConsoleState::Detached;
    for cmd in [LogsContextMenuButton::ShowLogs, LogsContextMenuButton::HideLogs] {
        for ok in [true, false] {
            let op = ConsoleOp::begin(cmd);
            assert_eq!(op.state_after(ok, d), d);
            assert!(!matches!(op.progress(ok, d), Progress::Failed(_)));
        }
    }
}
