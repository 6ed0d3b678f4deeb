use tmmx::app::App;
use tmmx::app::Command;
use tmmx::app::Followup;
use tmmx::app::InputMode;
use tmmx::app::Panel;
use tmmx::event::Key;
use tmmx::model::TmuxPane;
use tmmx::model::TmuxSession;
use tmmx::model::TmuxWindow;

fn sess(name: &str) -> TmuxSession {
    TmuxSession {
        name: name.to_string(),
        id: format!("${}", name),
        windows: 1,
        attached: false,
        created: 0,
        last_activity: 0,
    }
}

fn win(name: &str, index: u32) -> TmuxWindow {
    TmuxWindow {
        name: name.to_string(),
        index,
        id: format!("@{}", index),
        active: false,
        panes: 1,
        layout: String::new(),
        flags: String::new(),
    }
}

fn pane(id: &str, index: u32) -> TmuxPane {
    TmuxPane {
        id: id.to_string(),
        index,
        active: false,
        command: "vim".to_string(),
        width: 80,
        height: 24,
        top: 0,
        left: 0,
        cwd: "/".to_string(),
        pid: 1,
    }
}

fn populated() -> App {
    let mut app = App::new(0);
    app.refresh_sessions(vec![sess("work"), sess("play")]);
    app.refresh_windows(vec![win("edit", 1), win("logs", 2)], None);
    app.refresh_panes(vec![pane("%5", 0), pane("%6", 1)], None);
    app
}

#[test]
fn quit_key_stops_the_loop() {
    let mut app = App::new(0);
    let f = app.handle_key(Key::Char('q'), true, 0);
    assert_eq!(f, Followup::Idle);
    assert!(!app.running);
}

#[test]
fn help_toggles_and_swallows_other_keys() {
    let mut app = populated();
    app.handle_key(Key::Char('?'), true, 0);
    assert_eq!(app.mode, InputMode::Help);
    // Other keys are swallowed while help is open.
    let f = app.handle_key(Key::Char('q'), true, 0);
    assert_eq!(f, Followup::Idle);
    assert!(app.running);
    app.handle_key(Key::Char('?'), true, 0);
    assert_eq!(app.mode, InputMode::Normal);
    app.handle_key(Key::Char('?'), true, 0);
    app.handle_key(Key::Esc, true, 0);
    assert_eq!(app.mode, InputMode::Normal);
}

#[test]
fn panel_ring_and_direct_jumps() {
    let mut app = App::new(0);
    assert_eq!(app.focused, Panel::Sessions);
    app.handle_key(Key::Tab, true, 0);
    assert_eq!(app.focused, Panel::Windows);
    app.handle_key(Key::Tab, true, 0);
    assert_eq!(app.focused, Panel::Panes);
    app.handle_key(Key::Tab, true, 0);
    assert_eq!(app.focused, Panel::Preview);
    app.handle_key(Key::Tab, true, 0);
    assert_eq!(app.focused, Panel::Sessions);
    app.handle_key(Key::BackTab, true, 0);
    assert_eq!(app.focused, Panel::Preview);
    app.handle_key(Key::Char('3'), true, 0);
    assert_eq!(app.focused, Panel::Panes);
    app.handle_key(Key::Char('1'), true, 0);
    assert_eq!(app.focused, Panel::Sessions);
}

#[test]
fn text_input_cancel_restores_pre_entry_state() {
    let mut app = populated();
    app.handle_key(Key::Char('n'), true, 0);
    assert_eq!(app.mode, InputMode::TextInput);
    assert_eq!(app.input_prompt, "New session name: ");
    app.handle_key(Key::Char('x'), true, 0);
    app.handle_key(Key::Char('y'), true, 0);
    assert_eq!(app.input_buffer, "xy");
    let f = app.handle_key(Key::Esc, true, 0);
    assert_eq!(f, Followup::Idle);
    assert_eq!(app.mode, InputMode::Normal);
    assert!(app.input_buffer.is_empty());
    assert!(app.input_prompt.is_empty());
    assert!(app.pending_action.is_none());
    assert_eq!(app.selected_session_name().as_deref(), Some("work"));
}

#[test]
fn text_input_confirm_invokes_one_command_with_value() {
    let mut app = populated();
    app.handle_key(Key::Char('n'), true, 0);
    app.handle_key(Key::Char('d'), true, 0);
    app.handle_key(Key::Char('b'), true, 0);
    app.handle_key(Key::Backspace, true, 0);
    app.handle_key(Key::Char('e'), true, 0);
    app.handle_key(Key::Char('v'), true, 0);
    let f = app.handle_key(Key::Enter, true, 0);
    assert_eq!(
        f,
        Followup::Invoke(Command::NewSession { name: "dev".to_string() })
    );
    assert_eq!(app.mode, InputMode::Normal);
    assert!(app.input_buffer.is_empty());
    assert!(app.pending_action.is_none());
}

#[test]
fn empty_required_name_aborts_silently() {
    let mut app = populated();
    app.handle_key(Key::Char('n'), true, 0);
    let f = app.handle_key(Key::Enter, true, 0);
    assert_eq!(f, Followup::Idle);
    assert_eq!(app.mode, InputMode::Normal);
    assert!(app.status.is_none());
}

#[test]
fn rename_session_prefills_current_name() {
    let mut app = populated();
    app.handle_key(Key::Char('r'), true, 0);
    assert_eq!(app.mode, InputMode::TextInput);
    assert_eq!(app.input_buffer, "work");
    app.handle_key(Key::Char('!'), true, 0);
    let f = app.handle_key(Key::Enter, true, 0);
    assert_eq!(
        f,
        Followup::Invoke(Command::RenameSession {
            old_name: "work".to_string(),
            new_name: "work!".to_string(),
        })
    );
}

#[test]
fn empty_new_window_name_means_default() {
    let mut app = populated();
    app.handle_key(Key::Char('2'), true, 0);
    app.handle_key(Key::Char('n'), true, 0);
    let f = app.handle_key(Key::Enter, true, 0);
    assert_eq!(
        f,
        Followup::Invoke(Command::NewWindow { session: "work".to_string(), name: None })
    );
}

#[test]
fn kill_window_asks_for_confirmation() {
    let mut app = populated();
    app.handle_key(Key::Char('2'), true, 0);
    app.handle_key(Key::Char('d'), true, 0);
    assert_eq!(app.mode, InputMode::Confirm);
    assert_eq!(app.confirm_message, "Kill window 'work:edit'? (y/n)");
    let f = app.handle_key(Key::Char('y'), true, 0);
    assert_eq!(
        f,
        Followup::Invoke(Command::KillWindow { session: "work".to_string(), index: 1 })
    );
    assert_eq!(app.mode, InputMode::Normal);
    assert!(app.confirm_message.is_empty());
}

#[test]
fn confirm_decline_discards_the_action() {
    let mut app = populated();
    app.handle_key(Key::Char('d'), true, 0);
    assert_eq!(app.mode, InputMode::Confirm);
    assert_eq!(app.confirm_message, "Kill session 'work'? (y/n)");
    let f = app.handle_key(Key::Char('n'), true, 0);
    assert_eq!(f, Followup::Idle);
    assert_eq!(app.mode, InputMode::Normal);
    assert!(app.pending_action.is_none());
    // The session is still there; nothing was executed.
    assert_eq!(app.selected_session_name().as_deref(), Some("work"));
}

#[test]
fn kill_pane_confirm_and_execute() {
    let mut app = populated();
    app.handle_key(Key::Char('3'), true, 0);
    app.handle_key(Key::Char('d'), true, 0);
    assert_eq!(app.confirm_message, "Kill pane '%5'? (y/n)");
    let f = app.handle_key(Key::Enter, true, 0);
    assert_eq!(f, Followup::Invoke(Command::KillPane { id: "%5".to_string() }));
}

#[test]
fn pane_keys_split_zoom_break() {
    let mut app = populated();
    app.handle_key(Key::Char('3'), true, 0);
    let f = app.handle_key(Key::Char('n'), true, 0);
    assert_eq!(f, Followup::Invoke(Command::SplitPaneVertical { pane: "%5".to_string() }));
    let f = app.handle_key(Key::Char('N'), true, 0);
    assert_eq!(
        f,
        Followup::Invoke(Command::SplitPaneHorizontal { pane: "%5".to_string() })
    );
    let f = app.handle_key(Key::Char('z'), true, 0);
    assert_eq!(f, Followup::Invoke(Command::ToggleZoom { id: "%5".to_string() }));
    let f = app.handle_key(Key::Char('w'), true, 0);
    assert_eq!(f, Followup::Invoke(Command::BreakPane { id: "%5".to_string() }));
}

#[test]
fn switch_inside_client_issues_commands() {
    let mut app = populated();
    let f = app.handle_key(Key::Enter, true, 0);
    assert_eq!(f, Followup::Invoke(Command::SwitchToSession { name: "work".to_string() }));
    app.handle_key(Key::Char('2'), true, 0);
    let f = app.handle_key(Key::Enter, true, 0);
    assert_eq!(
        f,
        Followup::Invoke(Command::SwitchToWindow { session: "work".to_string(), index: 1 })
    );
    app.handle_key(Key::Char('3'), true, 0);
    let f = app.handle_key(Key::Enter, true, 0);
    assert_eq!(
        f,
        Followup::Invoke(Command::SwitchToPane {
            session: "work".to_string(),
            window_index: 1,
            pane_index: 0,
            pane_id: "%5".to_string(),
        })
    );
    assert!(!app.should_suspend);
}

#[test]
fn switch_outside_client_hands_off() {
    let mut app = populated();
    app.handle_key(Key::Char('3'), true, 0);
    app.move_selection(Panel::Panes, 1);
    let f = app.handle_key(Key::Enter, false, 0);
    assert_eq!(f, Followup::Idle);
    assert!(app.should_suspend);
    assert_eq!(app.suspend_target.as_deref(), Some("work:1.1"));
}

#[test]
fn forced_refresh_reports_and_demands_refresh() {
    let mut app = populated();
    let f = app.handle_key(Key::Char('R'), true, 0);
    assert_eq!(f, Followup::RefreshAll);
    let status = app.status.as_ref().unwrap();
    assert_eq!(status.text, "Refreshed");
    assert!(!status.is_error);
}

#[test]
fn command_success_sets_status_and_owes_refresh() {
    let mut app = populated();
    let cmd = Command::KillSession { name: "play".to_string() };
    let refresh = app.report_command_result(&cmd, Ok(()), 100);
    assert!(refresh);
    let status = app.status.as_ref().unwrap();
    assert_eq!(status.text, "Session 'play' killed");
    assert!(!status.is_error);
    assert_eq!(status.created_ms, 100);
}

#[test]
fn command_failure_sets_error_status_and_no_refresh() {
    let mut app = populated();
    let cmd = Command::NewSession { name: "dup".to_string() };
    let refresh = app.report_command_result(&cmd, Err("duplicate session: dup".to_string()), 100);
    assert!(!refresh);
    let status = app.status.as_ref().unwrap();
    assert_eq!(status.text, "duplicate session: dup");
    assert!(status.is_error);
}

#[test]
fn zoom_success_is_a_mutation_and_owes_refresh() {
    let mut app = populated();
    let refresh =
        app.report_command_result(&Command::ToggleZoom { id: "%5".to_string() }, Ok(()), 0);
    assert!(refresh);
    assert_eq!(app.status.as_ref().unwrap().text, "Pane zoom toggled");
}

#[test]
fn switch_success_reports_status_without_refresh() {
    let mut app = populated();
    let refresh = app.report_command_result(
        &Command::SwitchToSession { name: "play".to_string() },
        Ok(()),
        0,
    );
    assert!(!refresh);
    assert_eq!(app.status.as_ref().unwrap().text, "Switched to 'play'");
    let refresh = app.report_command_result(
        &Command::SwitchToWindow { session: "work".to_string(), index: 2 },
        Ok(()),
        0,
    );
    assert!(!refresh);
    assert_eq!(app.status.as_ref().unwrap().text, "Switched to work:2");
}

#[test]
fn status_present_before_dwell_absent_after() {
    let mut app = populated();
    app.report_command_result(&Command::ToggleZoom { id: "%5".to_string() }, Ok(()), 1000);
    // Four seconds after it was set, the message is still shown.
    app.handle_key(Key::Char('4'), true, 5000);
    assert!(app.status.is_some());
    // Six seconds after, a tick expires it.
    let _ = app.tick(7000);
    assert!(app.status.is_none());
}

#[test]
fn backspace_on_empty_buffer_is_a_no_op() {
    let mut app = populated();
    app.handle_key(Key::Char('n'), true, 0);
    let f = app.handle_key(Key::Backspace, true, 0);
    assert_eq!(f, Followup::Idle);
    assert!(app.input_buffer.is_empty());
    assert_eq!(app.mode, InputMode::TextInput);
}

#[test]
fn prompts_need_a_selection() {
    // With no sessions at all, rename and delete have nothing to act on.
    let mut app = App::new(0);
    let f = app.handle_key(Key::Char('r'), true, 0);
    assert_eq!(f, Followup::Idle);
    assert_eq!(app.mode, InputMode::Normal);
    let f = app.handle_key(Key::Char('d'), true, 0);
    assert_eq!(f, Followup::Idle);
    assert_eq!(app.mode, InputMode::Normal);
    // A switch with nothing selected does nothing either.
    let f = app.handle_key(Key::Enter, false, 0);
    assert_eq!(f, Followup::Idle);
    assert!(!app.should_suspend);
}

#[test]
fn new_window_without_session_aborts() {
    let mut app = App::new(0);
    app.handle_key(Key::Char('2'), true, 0);
    app.handle_key(Key::Char('n'), true, 0);
    assert_eq!(app.mode, InputMode::TextInput);
    app.handle_key(Key::Char('x'), true, 0);
    let f = app.handle_key(Key::Enter, true, 0);
    assert_eq!(f, Followup::Idle);
    assert_eq!(app.mode, InputMode::Normal);
    assert!(app.status.is_none());
}

#[test]
fn rename_window_carries_session_and_index() {
    let mut app = populated();
    app.handle_key(Key::Char('2'), true, 0);
    app.handle_key(Key::Char('j'), true, 0);
    // The caller would re-query panes here; the rename still names window 2.
    app.handle_key(Key::Char('r'), true, 0);
    assert_eq!(app.input_buffer, "logs");
    app.handle_key(Key::Char('!'), true, 0);
    let f = app.handle_key(Key::Enter, true, 0);
    assert_eq!(
        f,
        Followup::Invoke(Command::RenameWindow {
            session: "work".to_string(),
            index: 2,
            name: "logs!".to_string(),
        })
    );
}

#[test]
fn tick_owes_refresh_after_interval() {
    let mut app = App::new(1000);
    assert!(!app.tick(2500));
    assert!(app.tick(3000));
    app.mark_refreshed(3000);
    assert!(!app.tick(4500));
    assert_eq!(app.last_refresh_ms, 3000);
}
