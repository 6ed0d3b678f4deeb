//! The action engine: a modal state machine (normal, text input,
//! confirmation, help) that turns key events into navigation, prompts, or
//! multiplexer commands.
//!
//! Mutating work is never performed here: a key event yields a `Followup`
//! telling the caller what it owes — nothing, a refresh, a cascade, or one
//! `Command` to execute, whose outcome comes back through
//! `report_command_result`. Every transition is pinned down by the
//! `key_step` relation.

use vstd::prelude::*;

use crate::app::App;
use crate::app::Command;
use crate::app::Followup;
use crate::app::InputMode;
use crate::app::Panel;
use crate::app::PendingAction;
use crate::app::StatusMessage;
use crate::app::move_selection_rel;
use crate::app::ring_next;
use crate::app::ring_prev;
use crate::app::status_after_expiry;
use crate::event::Key;
use crate::text::dec_str;
use crate::text::push_char;
use crate::text::push_dec_u64;
use vstd::string::StrSliceExecFns;
use vstd::string::StringExecFns;

verus! {

/// `s` with its last character removed; an empty string stays empty.
pub open spec fn chopped(s: Seq<char>) -> Seq<char> {
    if s.len() == 0 {
        s
    } else {
        s.drop_last()
    }
}

/// The pending action was dropped and the engine returned to normal mode
/// with every transient field cleared; nothing else changed.
pub open spec fn cancelled_from(pre: App, post: App) -> bool {
    &&& post.mode is Normal
    &&& post.transients_clear()
    &&& (App {
        mode: pre.mode,
        input_buffer: pre.input_buffer,
        input_prompt: pre.input_prompt,
        confirm_message: pre.confirm_message,
        pending_action: pre.pending_action,
        ..post
    } == pre)
}

/// A text prompt opened: text-input mode, the given prompt, the buffer
/// prefilled, the pending action set; nothing else changed.
pub open spec fn text_input_started(
    pre: App,
    post: App,
    prompt: Seq<char>,
    prefill: Seq<char>,
) -> bool {
    &&& post.mode is TextInput
    &&& post.input_prompt@ == prompt
    &&& post.input_buffer@ == prefill
    &&& post.pending_action is Some
    &&& (App {
        mode: pre.mode,
        input_prompt: pre.input_prompt,
        input_buffer: pre.input_buffer,
        pending_action: pre.pending_action,
        ..post
    } == pre)
}

/// A confirmation opened: confirm mode, the given message, the pending
/// action set; nothing else changed.
pub open spec fn confirm_started(pre: App, post: App, message: Seq<char>) -> bool {
    &&& post.mode is Confirm
    &&& post.confirm_message@ == message
    &&& post.pending_action is Some
    &&& (App {
        mode: pre.mode,
        confirm_message: pre.confirm_message,
        pending_action: pre.pending_action,
        ..post
    } == pre)
}

/// The command a confirmed pending action stands for: the kill it names;
/// an action that takes a text prompt instead yields nothing here.
pub open spec fn confirm_followup_ok(pre: App, f: Followup) -> bool {
    match pre.pending_action {
        Some(PendingAction::KillSession(n)) => f matches Followup::Invoke(
            Command::KillSession { name },
        ) && name@ == n@,
        Some(PendingAction::KillWindow(s, i)) => f matches Followup::Invoke(
            Command::KillWindow { session, index },
        ) && session@ == s@ && index == i,
        Some(PendingAction::KillPane(p)) => f matches Followup::Invoke(
            Command::KillPane { id },
        ) && id@ == p@,
        _ => f is Idle,
    }
}

/// The command a submitted text prompt stands for. A required name left
/// empty silently aborts the action; an empty name for a new window means
/// "use the default name"; a new window needs a selected session.
pub open spec fn text_followup_ok(pre: App, f: Followup) -> bool {
    match pre.pending_action {
        Some(PendingAction::CreateSession) => if pre.input_buffer@.len() == 0 {
            f is Idle
        } else {
            f matches Followup::Invoke(Command::NewSession { name }) && name@
                == pre.input_buffer@
        },
        Some(PendingAction::RenameSession(prev_name)) => if pre.input_buffer@.len() == 0 {
            f is Idle
        } else {
            f matches Followup::Invoke(Command::RenameSession { old_name, new_name }) && old_name@
                == prev_name@ && new_name@ == pre.input_buffer@
        },
        Some(PendingAction::CreateWindow) => match pre.spec_selected_session() {
            Some(s) => {
                f matches Followup::Invoke(Command::NewWindow { session, name }) && session@
                    == s.name@ && (if pre.input_buffer@.len() == 0 {
                    name is None
                } else {
                    name matches Some(n) && n@ == pre.input_buffer@
                })
            },
            None => f is Idle,
        },
        Some(PendingAction::RenameWindow(sess, idx)) => if pre.input_buffer@.len() == 0 {
            f is Idle
        } else {
            f matches Followup::Invoke(Command::RenameWindow { session, index, name })
                && session@ == sess@ && index == idx && name@ == pre.input_buffer@
        },
        _ => f is Idle,
    }
}

/// Help mode: the toggle key or escape returns to normal; every other key is
/// swallowed.
pub open spec fn help_step(pre: App, key: Key, post: App, f: Followup) -> bool {
    &&& f is Idle
    &&& if key == Key::Char('?') || key == Key::Esc {
        post == (App { mode: InputMode::Normal, ..pre })
    } else {
        post == pre
    }
}

/// Confirm mode: accept executes the pending kill and closes the prompt,
/// decline or escape just closes it, anything else is swallowed.
pub open spec fn confirm_step(pre: App, key: Key, post: App, f: Followup) -> bool {
    if key == Key::Char('y') || key == Key::Enter {
        cancelled_from(pre, post) && confirm_followup_ok(pre, f)
    } else if key == Key::Char('n') || key == Key::Esc {
        cancelled_from(pre, post) && f is Idle
    } else {
        post == pre && f is Idle
    }
}

/// Text-input mode: enter submits the buffer to the pending action and
/// closes the prompt (whatever the outcome), escape discards it, editing
/// appends or chops one character at the end.
pub open spec fn text_step(pre: App, key: Key, post: App, f: Followup) -> bool {
    match key {
        Key::Enter => cancelled_from(pre, post) && text_followup_ok(pre, f),
        Key::Esc => cancelled_from(pre, post) && f is Idle,
        Key::Backspace => {
            &&& f is Idle
            &&& post.input_buffer@ == chopped(pre.input_buffer@)
            &&& (App { input_buffer: pre.input_buffer, ..post } == pre)
        },
        Key::Char(c) => {
            &&& f is Idle
            &&& post.input_buffer@ == pre.input_buffer@.push(c)
            &&& (App { input_buffer: pre.input_buffer, ..post } == pre)
        },
        _ => post == pre && f is Idle,
    }
}

/// A fresh non-error status message reading `Refreshed` was set at `now`;
/// nothing else changed.
pub open spec fn refreshed_status_set(pre: App, now: u64, post: App) -> bool {
    &&& post.status matches Some(m) && m.text@ == "Refreshed"@ && !m.is_error && m.created_ms
        == now
    &&& (App { status: pre.status, ..post } == pre)
}

/// Switching to the selected session: inside a client, the switch command;
/// outside, a hand-off (terminate, then attach to the target).
pub open spec fn session_switch_step(pre: App, inside: bool, post: App, f: Followup) -> bool {
    match pre.spec_selected_session() {
        Some(s) => if inside {
            post == pre && (f matches Followup::Invoke(Command::SwitchToSession { name })
                && name@ == s.name@)
        } else {
            &&& post.should_suspend
            &&& post.suspend_target matches Some(t) && t@ == s.name@
            &&& (App {
                should_suspend: pre.should_suspend,
                suspend_target: pre.suspend_target,
                ..post
            } == pre)
            &&& f is Idle
        },
        None => post == pre && f is Idle,
    }
}

/// Switching to the selected window, scoped to the selected session.
pub open spec fn window_switch_step(pre: App, inside: bool, post: App, f: Followup) -> bool {
    match (pre.spec_selected_session(), pre.spec_selected_window()) {
        (Some(s), Some(w)) => if inside {
            post == pre && (f matches Followup::Invoke(Command::SwitchToWindow { session, index })
                && session@ == s.name@ && index == w.index)
        } else {
            &&& post.should_suspend
            &&& post.suspend_target matches Some(t) && t@ == s.name@ + ":"@ + dec_str(
                w.index as nat,
            )
            &&& (App {
                should_suspend: pre.should_suspend,
                suspend_target: pre.suspend_target,
                ..post
            } == pre)
            &&& f is Idle
        },
        _ => post == pre && f is Idle,
    }
}

/// Switching to the selected pane, scoped to the selected session and window.
pub open spec fn pane_switch_step(pre: App, inside: bool, post: App, f: Followup) -> bool {
    match (pre.spec_selected_session(), pre.spec_selected_window(), pre.spec_selected_pane()) {
        (Some(s), Some(w), Some(p)) => if inside {
            post == pre && (f matches Followup::Invoke(
                Command::SwitchToPane { session, window_index, pane_index, pane_id },
            ) && session@ == s.name@ && window_index == w.index && pane_index == p.index
                && pane_id@ == p.id@)
        } else {
            &&& post.should_suspend
            &&& post.suspend_target matches Some(t) && t@ == s.name@ + ":"@ + dec_str(
                w.index as nat,
            ) + "."@ + dec_str(p.index as nat)
            &&& (App {
                should_suspend: pre.should_suspend,
                suspend_target: pre.suspend_target,
                ..post
            } == pre)
            &&& f is Idle
        },
        _ => post == pre && f is Idle,
    }
}

/// Sessions panel keys.
pub open spec fn sessions_step(pre: App, key: Key, inside: bool, post: App, f: Followup) -> bool {
    if key == Key::Char('j') || key == Key::Down {
        move_selection_rel(pre, Panel::Sessions, 1, post, f)
    } else if key == Key::Char('k') || key == Key::Up {
        move_selection_rel(pre, Panel::Sessions, -1, post, f)
    } else if key == Key::Char('l') || key == Key::Right {
        post == (App { focused: ring_next(pre.focused), ..pre }) && f is Idle
    } else if key == Key::Char('h') || key == Key::Left {
        post == (App { focused: ring_prev(pre.focused), ..pre }) && f is Idle
    } else if key == Key::Char('n') {
        &&& f is Idle
        &&& text_input_started(pre, post, "New session name: "@, Seq::<char>::empty())
        &&& post.pending_action matches Some(PendingAction::CreateSession)
    } else if key == Key::Char('r') {
        match pre.spec_selected_session() {
            Some(s) => {
                &&& f is Idle
                &&& text_input_started(pre, post, "Rename session: "@, s.name@)
                &&& post.pending_action matches Some(PendingAction::RenameSession(n)) && n@
                    == s.name@
            },
            None => post == pre && f is Idle,
        }
    } else if key == Key::Char('d') {
        match pre.spec_selected_session() {
            Some(s) => {
                &&& f is Idle
                &&& confirm_started(pre, post, "Kill session '"@ + s.name@ + "'? (y/n)"@)
                &&& post.pending_action matches Some(PendingAction::KillSession(n)) && n@
                    == s.name@
            },
            None => post == pre && f is Idle,
        }
    } else if key == Key::Enter {
        session_switch_step(pre, inside, post, f)
    } else {
        post == pre && f is Idle
    }
}

/// Windows panel keys.
pub open spec fn windows_step(pre: App, key: Key, inside: bool, post: App, f: Followup) -> bool {
    if key == Key::Char('j') || key == Key::Down {
        move_selection_rel(pre, Panel::Windows, 1, post, f)
    } else if key == Key::Char('k') || key == Key::Up {
        move_selection_rel(pre, Panel::Windows, -1, post, f)
    } else if key == Key::Char('l') || key == Key::Right {
        post == (App { focused: ring_next(pre.focused), ..pre }) && f is Idle
    } else if key == Key::Char('h') || key == Key::Left {
        post == (App { focused: ring_prev(pre.focused), ..pre }) && f is Idle
    } else if key == Key::Char('n') {
        &&& f is Idle
        &&& text_input_started(pre, post, "New window name: "@, Seq::<char>::empty())
        &&& post.pending_action matches Some(PendingAction::CreateWindow)
    } else if key == Key::Char('r') {
        match (pre.spec_selected_session(), pre.spec_selected_window()) {
            (Some(s), Some(w)) => {
                &&& f is Idle
                &&& text_input_started(pre, post, "Rename window: "@, w.name@)
                &&& post.pending_action matches Some(PendingAction::RenameWindow(n, i)) && n@
                    == s.name@ && i == w.index
            },
            _ => post == pre && f is Idle,
        }
    } else if key == Key::Char('d') {
        match (pre.spec_selected_session(), pre.spec_selected_window()) {
            (Some(s), Some(w)) => {
                &&& f is Idle
                &&& confirm_started(
                    pre,
                    post,
                    "Kill window '"@ + s.name@ + ":"@ + w.name@ + "'? (y/n)"@,
                )
                &&& post.pending_action matches Some(PendingAction::KillWindow(n, i)) && n@
                    == s.name@ && i == w.index
            },
            _ => post == pre && f is Idle,
        }
    } else if key == Key::Enter {
        window_switch_step(pre, inside, post, f)
    } else {
        post == pre && f is Idle
    }
}

/// Panes panel keys.
pub open spec fn panes_step(pre: App, key: Key, inside: bool, post: App, f: Followup) -> bool {
    if key == Key::Char('j') || key == Key::Down {
        move_selection_rel(pre, Panel::Panes, 1, post, f)
    } else if key == Key::Char('k') || key == Key::Up {
        move_selection_rel(pre, Panel::Panes, -1, post, f)
    } else if key == Key::Char('l') || key == Key::Right {
        post == (App { focused: ring_next(pre.focused), ..pre }) && f is Idle
    } else if key == Key::Char('h') || key == Key::Left {
        post == (App { focused: ring_prev(pre.focused), ..pre }) && f is Idle
    } else if key == Key::Char('n') {
        &&& post == pre
        &&& match (
            pre.spec_selected_session(),
            pre.spec_selected_window(),
            pre.spec_selected_pane(),
        ) {
            (Some(_), Some(_), Some(p)) => f matches Followup::Invoke(
                Command::SplitPaneVertical { pane },
            ) && pane@ == p.id@,
            _ => f is Idle,
        }
    } else if key == Key::Char('N') {
        &&& post == pre
        &&& match (
            pre.spec_selected_session(),
            pre.spec_selected_window(),
            pre.spec_selected_pane(),
        ) {
            (Some(_), Some(_), Some(p)) => f matches Followup::Invoke(
                Command::SplitPaneHorizontal { pane },
            ) && pane@ == p.id@,
            _ => f is Idle,
        }
    } else if key == Key::Char('d') {
        match pre.spec_selected_pane() {
            Some(p) => {
                &&& f is Idle
                &&& confirm_started(pre, post, "Kill pane '"@ + p.id@ + "'? (y/n)"@)
                &&& post.pending_action matches Some(PendingAction::KillPane(n)) && n@ == p.id@
            },
            None => post == pre && f is Idle,
        }
    } else if key == Key::Char('z') {
        &&& post == pre
        &&& match pre.spec_selected_pane() {
            Some(p) => f matches Followup::Invoke(Command::ToggleZoom { id }) && id@ == p.id@,
            None => f is Idle,
        }
    } else if key == Key::Char('w') {
        &&& post == pre
        &&& match pre.spec_selected_pane() {
            Some(p) => f matches Followup::Invoke(Command::BreakPane { id }) && id@ == p.id@,
            None => f is Idle,
        }
    } else if key == Key::Enter {
        pane_switch_step(pre, inside, post, f)
    } else {
        post == pre && f is Idle
    }
}

/// Preview panel keys: only horizontal focus movement.
pub open spec fn preview_step(pre: App, key: Key, post: App, f: Followup) -> bool {
    &&& f is Idle
    &&& if key == Key::Char('l') || key == Key::Right {
        post == (App { focused: ring_next(pre.focused), ..pre })
    } else if key == Key::Char('h') || key == Key::Left {
        post == (App { focused: ring_prev(pre.focused), ..pre })
    } else {
        post == pre
    }
}

/// Normal mode: global keys first (quit, help, forced refresh, direct panel
/// jumps, panel cycling), then the focused panel's own keys.
pub open spec fn normal_step(
    pre: App,
    key: Key,
    inside: bool,
    now: u64,
    post: App,
    f: Followup,
) -> bool {
    if key == Key::Char('q') {
        post == (App { running: false, ..pre }) && f is Idle
    } else if key == Key::Char('?') {
        post == (App { mode: InputMode::Help, ..pre }) && f is Idle
    } else if key == Key::Char('R') {
        refreshed_status_set(pre, now, post) && f is RefreshAll
    } else if key == Key::Char('1') {
        post == (App { focused: Panel::Sessions, ..pre }) && f is Idle
    } else if key == Key::Char('2') {
        post == (App { focused: Panel::Windows, ..pre }) && f is Idle
    } else if key == Key::Char('3') {
        post == (App { focused: Panel::Panes, ..pre }) && f is Idle
    } else if key == Key::Char('4') {
        post == (App { focused: Panel::Preview, ..pre }) && f is Idle
    } else if key == Key::Tab {
        post == (App { focused: ring_next(pre.focused), ..pre }) && f is Idle
    } else if key == Key::BackTab {
        post == (App { focused: ring_prev(pre.focused), ..pre }) && f is Idle
    } else {
        match pre.focused {
            Panel::Sessions => sessions_step(pre, key, inside, post, f),
            Panel::Windows => windows_step(pre, key, inside, post, f),
            Panel::Panes => panes_step(pre, key, inside, post, f),
            Panel::Preview => preview_step(pre, key, post, f),
        }
    }
}

/// One key event: the status line is aged first, then the key acts according
/// to the current mode.
pub open spec fn key_step(
    pre: App,
    key: Key,
    inside: bool,
    now: u64,
    post: App,
    f: Followup,
) -> bool {
    let aged = App { status: status_after_expiry(pre.status, now), ..pre };
    match pre.mode {
        InputMode::Help => help_step(aged, key, post, f),
        InputMode::Confirm => confirm_step(aged, key, post, f),
        InputMode::TextInput => text_step(aged, key, post, f),
        InputMode::Normal => normal_step(aged, key, inside, now, post, f),
    }
}

/// Whether a successful `cmd` mutates multiplexer state and so owes a full
/// refresh: every mutating operation does, the zoom toggle included; only
/// the switches, which change which client looks where rather than the
/// entities themselves, report a status alone.
pub open spec fn triggers_refresh(cmd: Command) -> bool {
    match cmd {
        Command::SwitchToSession { .. } => false,
        Command::SwitchToWindow { .. } => false,
        Command::SwitchToPane { .. } => false,
        _ => true,
    }
}

/// The status line a successful `cmd` reports.
pub open spec fn success_text(cmd: Command) -> Seq<char> {
    match cmd {
        Command::NewSession { name } => "Session '"@ + name@ + "' created"@,
        Command::KillSession { name } => "Session '"@ + name@ + "' killed"@,
        Command::RenameSession { old_name, new_name } => "Session renamed to '"@ + new_name@
            + "'"@,
        Command::NewWindow { .. } => "Window created"@,
        Command::KillWindow { session, index } => "Window "@ + session@ + ":"@ + dec_str(
            index as nat,
        ) + " killed"@,
        Command::RenameWindow { session, index, name } => "Window renamed to '"@ + name@ + "'"@,
        Command::SplitPaneVertical { .. } => "Pane split vertically"@,
        Command::SplitPaneHorizontal { .. } => "Pane split horizontally"@,
        Command::KillPane { id } => "Pane '"@ + id@ + "' killed"@,
        Command::ToggleZoom { .. } => "Pane zoom toggled"@,
        Command::BreakPane { .. } => "Pane broken to new window"@,
        Command::SwitchToSession { name } => "Switched to '"@ + name@ + "'"@,
        Command::SwitchToWindow { session, index } => "Switched to "@ + session@ + ":"@ + dec_str(
            index as nat,
        ),
        Command::SwitchToPane { session, window_index, pane_index, pane_id } => "Switched to "@
            + session@ + ":"@ + dec_str(window_index as nat) + "."@ + dec_str(pane_index as nat),
    }
}

/// Build the success status line of `cmd`.
fn success_message(cmd: &Command) -> (r: String)
    ensures
        r@ == success_text(*cmd),
{
    match cmd {
        Command::NewSession { name } => {
            let mut s = String::from_str("Session '");
            s.append(name.as_str());
            s.append("' created");
            proof {
                assert(s@ =~= success_text(*cmd));
            }
            s
        },
        Command::KillSession { name } => {
            let mut s = String::from_str("Session '");
            s.append(name.as_str());
            s.append("' killed");
            proof {
                assert(s@ =~= success_text(*cmd));
            }
            s
        },
        Command::RenameSession { old_name: _, new_name } => {
            let mut s = String::from_str("Session renamed to '");
            s.append(new_name.as_str());
            s.append("'");
            proof {
                assert(s@ =~= success_text(*cmd));
            }
            s
        },
        Command::NewWindow { .. } => String::from_str("Window created"),
        Command::KillWindow { session, index } => {
            let mut s = String::from_str("Window ");
            s.append(session.as_str());
            s.append(":");
            push_dec_u64(&mut s, *index as u64);
            s.append(" killed");
            proof {
                assert(s@ =~= success_text(*cmd));
            }
            s
        },
        Command::RenameWindow { session: _, index: _, name } => {
            let mut s = String::from_str("Window renamed to '");
            s.append(name.as_str());
            s.append("'");
            proof {
                assert(s@ =~= success_text(*cmd));
            }
            s
        },
        Command::SplitPaneVertical { .. } => String::from_str("Pane split vertically"),
        Command::SplitPaneHorizontal { .. } => String::from_str("Pane split horizontally"),
        Command::KillPane { id } => {
            let mut s = String::from_str("Pane '");
            s.append(id.as_str());
            s.append("' killed");
            proof {
                assert(s@ =~= success_text(*cmd));
            }
            s
        },
        Command::ToggleZoom { .. } => String::from_str("Pane zoom toggled"),
        Command::BreakPane { .. } => String::from_str("Pane broken to new window"),
        Command::SwitchToSession { name } => {
            let mut s = String::from_str("Switched to '");
            s.append(name.as_str());
            s.append("'");
            proof {
                assert(s@ =~= success_text(*cmd));
            }
            s
        },
        Command::SwitchToWindow { session, index } => {
            let mut s = String::from_str("Switched to ");
            s.append(session.as_str());
            s.append(":");
            push_dec_u64(&mut s, *index as u64);
            proof {
                assert(s@ =~= success_text(*cmd));
            }
            s
        },
        Command::SwitchToPane { session, window_index, pane_index, pane_id: _ } => {
            let mut s = String::from_str("Switched to ");
            s.append(session.as_str());
            s.append(":");
            push_dec_u64(&mut s, *window_index as u64);
            s.append(".");
            push_dec_u64(&mut s, *pane_index as u64);
            proof {
                assert(s@ =~= success_text(*cmd));
            }
            s
        },
    }
}

impl App {
    /// Open a text prompt for `action`.
    fn start_text_input(&mut self, prompt: &str, prefill: String, action: PendingAction)
        requires
            old(self).wf(),
            old(self).mode is Normal,
        ensures
            final(self).wf(),
            text_input_started(*old(self), *final(self), prompt@, prefill@),
            final(self).pending_action == Some(action),
    {
        self.mode = InputMode::TextInput;
        self.input_prompt = prompt.to_owned();
        self.input_buffer = prefill;
        self.pending_action = Some(action);
    }

    /// Open a confirmation prompt for `action`.
    fn start_confirm(&mut self, message: String, action: PendingAction)
        requires
            old(self).wf(),
            old(self).mode is Normal,
        ensures
            final(self).wf(),
            confirm_started(*old(self), *final(self), message@),
            final(self).pending_action == Some(action),
    {
        self.mode = InputMode::Confirm;
        self.confirm_message = message;
        self.pending_action = Some(action);
    }

    /// Return to normal mode, clearing every transient field.
    fn cancel_input(&mut self)
        requires
            old(self).wf(),
        ensures
            final(self).wf(),
            cancelled_from(*old(self), *final(self)),
    {
        self.mode = InputMode::Normal;
        self.input_buffer = String::new();
        self.input_prompt = String::new();
        self.confirm_message = String::new();
        self.pending_action = None;
    }

    fn handle_help_key(&mut self, key: Key) -> (f: Followup)
        requires
            old(self).wf(),
            old(self).mode is Help,
        ensures
            final(self).wf(),
            help_step(*old(self), key, *final(self), f),
    {
        match key {
            Key::Char('?') | Key::Esc => {
                self.mode = InputMode::Normal;
                Followup::Idle
            },
            _ => Followup::Idle,
        }
    }

    fn handle_confirm_key(&mut self, key: Key) -> (f: Followup)
        requires
            old(self).wf(),
            old(self).mode is Confirm,
        ensures
            final(self).wf(),
            confirm_step(*old(self), key, *final(self), f),
    {
        match key {
            Key::Char('y') | Key::Enter => {
                let f = match &self.pending_action {
                    Some(PendingAction::KillSession(name)) => Followup::Invoke(
                        Command::KillSession { name: name.clone() },
                    ),
                    Some(PendingAction::KillWindow(session, index)) => Followup::Invoke(
                        Command::KillWindow { session: session.clone(), index: *index },
                    ),
                    Some(PendingAction::KillPane(id)) => Followup::Invoke(
                        Command::KillPane { id: id.clone() },
                    ),
                    _ => Followup::Idle,
                };
                self.cancel_input();
                f
            },
            Key::Char('n') | Key::Esc => {
                self.cancel_input();
                Followup::Idle
            },
            _ => Followup::Idle,
        }
    }

    fn handle_text_input_key(&mut self, key: Key) -> (f: Followup)
        requires
            old(self).wf(),
            old(self).mode is TextInput,
        ensures
            final(self).wf(),
            text_step(*old(self), key, *final(self), f),
    {
        match key {
            Key::Enter => {
                let value_empty = self.input_buffer.as_str().is_empty();
                let f = match &self.pending_action {
                    Some(PendingAction::CreateSession) => {
                        if value_empty {
                            Followup::Idle
                        } else {
                            Followup::Invoke(
                                Command::NewSession { name: self.input_buffer.clone() },
                            )
                        }
                    },
                    Some(PendingAction::RenameSession(prev_name)) => {
                        if value_empty {
                            Followup::Idle
                        } else {
                            Followup::Invoke(
                                Command::RenameSession {
                                    old_name: prev_name.clone(),
                                    new_name: self.input_buffer.clone(),
                                },
                            )
                        }
                    },
                    Some(PendingAction::CreateWindow) => {
                        match self.selected_session() {
                            Some(s) => {
                                let window_name = if value_empty {
                                    None
                                } else {
                                    Some(self.input_buffer.clone())
                                };
                                Followup::Invoke(
                                    Command::NewWindow { session: s.name, name: window_name },
                                )
                            },
                            None => Followup::Idle,
                        }
                    },
                    Some(PendingAction::RenameWindow(session, index)) => {
                        if value_empty {
                            Followup::Idle
                        } else {
                            Followup::Invoke(
                                Command::RenameWindow {
                                    session: session.clone(),
                                    index: *index,
                                    name: self.input_buffer.clone(),
                                },
                            )
                        }
                    },
                    _ => Followup::Idle,
                };
                self.cancel_input();
                f
            },
            Key::Esc => {
                self.cancel_input();
                Followup::Idle
            },
            Key::Backspace => {
                let len = self.input_buffer.as_str().unicode_len();
                if len > 0 {
                    let trimmed = self.input_buffer.as_str().substring_char(0, len - 1).to_owned();
                    proof {
                        assert(trimmed@ =~= chopped(old(self).input_buffer@));
                    }
                    self.input_buffer = trimmed;
                }
                Followup::Idle
            },
            Key::Char(c) => {
                push_char(&mut self.input_buffer, c);
                Followup::Idle
            },
            _ => Followup::Idle,
        }
    }

    fn switch_to_selected_session(&mut self, inside: bool) -> (f: Followup)
        requires
            old(self).wf(),
        ensures
            final(self).wf(),
            session_switch_step(*old(self), inside, *final(self), f),
    {
        match self.selected_session() {
            Some(s) => {
                if inside {
                    Followup::Invoke(Command::SwitchToSession { name: s.name })
                } else {
                    self.should_suspend = true;
                    self.suspend_target = Some(s.name);
                    Followup::Idle
                }
            },
            None => Followup::Idle,
        }
    }

    fn switch_to_selected_window(&mut self, inside: bool) -> (f: Followup)
        requires
            old(self).wf(),
        ensures
            final(self).wf(),
            window_switch_step(*old(self), inside, *final(self), f),
    {
        let selected = (self.selected_session(), self.selected_window());
        match selected {
            (Some(s), Some(w)) => {
                if inside {
                    Followup::Invoke(Command::SwitchToWindow { session: s.name, index: w.index })
                } else {
                    let mut target = s.name;
                    target.append(":");
                    push_dec_u64(&mut target, w.index as u64);
                    proof {
                        assert(target@ =~= old(self).spec_selected_session()->0.name@ + ":"@
                            + dec_str(w.index as nat));
                    }
                    self.should_suspend = true;
                    self.suspend_target = Some(target);
                    Followup::Idle
                }
            },
            _ => Followup::Idle,
        }
    }

    fn switch_to_selected_pane(&mut self, inside: bool) -> (f: Followup)
        requires
            old(self).wf(),
        ensures
            final(self).wf(),
            pane_switch_step(*old(self), inside, *final(self), f),
    {
        let selected = (self.selected_session(), self.selected_window(), self.selected_pane());
        match selected {
            (Some(s), Some(w), Some(p)) => {
                if inside {
                    Followup::Invoke(
                        Command::SwitchToPane {
                            session: s.name,
                            window_index: w.index,
                            pane_index: p.index,
                            pane_id: p.id,
                        },
                    )
                } else {
                    let mut target = s.name;
                    target.append(":");
                    push_dec_u64(&mut target, w.index as u64);
                    target.append(".");
                    push_dec_u64(&mut target, p.index as u64);
                    proof {
                        assert(target@ =~= old(self).spec_selected_session()->0.name@ + ":"@
                            + dec_str(w.index as nat) + "."@ + dec_str(p.index as nat));
                    }
                    self.should_suspend = true;
                    self.suspend_target = Some(target);
                    Followup::Idle
                }
            },
            _ => Followup::Idle,
        }
    }

    fn handle_sessions_key(&mut self, key: Key, inside: bool) -> (f: Followup)
        requires
            old(self).wf(),
            old(self).mode is Normal,
        ensures
            final(self).wf(),
            sessions_step(*old(self), key, inside, *final(self), f),
    {
        match key {
            Key::Char('j') | Key::Down => self.move_selection(Panel::Sessions, 1),
            Key::Char('k') | Key::Up => self.move_selection(Panel::Sessions, -1),
            Key::Char('l') | Key::Right => {
                self.focused = self.focused.next();
                Followup::Idle
            },
            Key::Char('h') | Key::Left => {
                self.focused = self.focused.prev();
                Followup::Idle
            },
            Key::Char('n') => {
                self.start_text_input(
                    "New session name: ",
                    String::new(),
                    PendingAction::CreateSession,
                );
                Followup::Idle
            },
            Key::Char('r') => {
                match self.selected_session() {
                    Some(s) => {
                        let prefill = s.name.clone();
                        self.start_text_input(
                            "Rename session: ",
                            prefill,
                            PendingAction::RenameSession(s.name),
                        );
                        Followup::Idle
                    },
                    None => Followup::Idle,
                }
            },
            Key::Char('d') => {
                match self.selected_session() {
                    Some(s) => {
                        let mut msg = String::from_str("Kill session '");
                        msg.append(s.name.as_str());
                        msg.append("'? (y/n)");
                        proof {
                            assert(msg@ =~= "Kill session '"@ + s.name@ + "'? (y/n)"@);
                        }
                        self.start_confirm(msg, PendingAction::KillSession(s.name));
                        Followup::Idle
                    },
                    None => Followup::Idle,
                }
            },
            Key::Enter => self.switch_to_selected_session(inside),
            _ => Followup::Idle,
        }
    }

    fn handle_windows_key(&mut self, key: Key, inside: bool) -> (f: Followup)
        requires
            old(self).wf(),
            old(self).mode is Normal,
        ensures
            final(self).wf(),
            windows_step(*old(self), key, inside, *final(self), f),
    {
        match key {
            Key::Char('j') | Key::Down => self.move_selection(Panel::Windows, 1),
            Key::Char('k') | Key::Up => self.move_selection(Panel::Windows, -1),
            Key::Char('l') | Key::Right => {
                self.focused = self.focused.next();
                Followup::Idle
            },
            Key::Char('h') | Key::Left => {
                self.focused = self.focused.prev();
                Followup::Idle
            },
            Key::Char('n') => {
                self.start_text_input(
                    "New window name: ",
                    String::new(),
                    PendingAction::CreateWindow,
                );
                Followup::Idle
            },
            Key::Char('r') => {
                let selected = (self.selected_session(), self.selected_window());
                match selected {
                    (Some(s), Some(w)) => {
                        let prefill = w.name.clone();
                        self.start_text_input(
                            "Rename window: ",
                            prefill,
                            PendingAction::RenameWindow(s.name, w.index),
                        );
                        Followup::Idle
                    },
                    _ => Followup::Idle,
                }
            },
            Key::Char('d') => {
                let selected = (self.selected_session(), self.selected_window());
                match selected {
                    (Some(s), Some(w)) => {
                        let mut msg = String::from_str("Kill window '");
                        msg.append(s.name.as_str());
                        msg.append(":");
                        msg.append(w.name.as_str());
                        msg.append("'? (y/n)");
                        proof {
                            assert(msg@ =~= "Kill window '"@ + s.name@ + ":"@ + w.name@
                                + "'? (y/n)"@);
                        }
                        self.start_confirm(msg, PendingAction::KillWindow(s.name, w.index));
                        Followup::Idle
                    },
                    _ => Followup::Idle,
                }
            },
            Key::Enter => self.switch_to_selected_window(inside),
            _ => Followup::Idle,
        }
    }

    fn handle_panes_key(&mut self, key: Key, inside: bool) -> (f: Followup)
        requires
            old(self).wf(),
            old(self).mode is Normal,
        ensures
            final(self).wf(),
            panes_step(*old(self), key, inside, *final(self), f),
    {
        match key {
            Key::Char('j') | Key::Down => self.move_selection(Panel::Panes, 1),
            Key::Char('k') | Key::Up => self.move_selection(Panel::Panes, -1),
            Key::Char('l') | Key::Right => {
                self.focused = self.focused.next();
                Followup::Idle
            },
            Key::Char('h') | Key::Left => {
                self.focused = self.focused.prev();
                Followup::Idle
            },
            Key::Char('n') => {
                let selected = (
                    self.selected_session(),
                    self.selected_window(),
                    self.selected_pane(),
                );
                match selected {
                    (Some(_), Some(_), Some(p)) => Followup::Invoke(
                        Command::SplitPaneVertical { pane: p.id },
                    ),
                    _ => Followup::Idle,
                }
            },
            Key::Char('N') => {
                let selected = (
                    self.selected_session(),
                    self.selected_window(),
                    self.selected_pane(),
                );
                match selected {
                    (Some(_), Some(_), Some(p)) => Followup::Invoke(
                        Command::SplitPaneHorizontal { pane: p.id },
                    ),
                    _ => Followup::Idle,
                }
            },
            Key::Char('d') => {
                match self.selected_pane() {
                    Some(p) => {
                        let mut msg = String::from_str("Kill pane '");
                        msg.append(p.id.as_str());
                        msg.append("'? (y/n)");
                        proof {
                            assert(msg@ =~= "Kill pane '"@ + p.id@ + "'? (y/n)"@);
                        }
                        self.start_confirm(msg, PendingAction::KillPane(p.id));
                        Followup::Idle
                    },
                    None => Followup::Idle,
                }
            },
            Key::Char('z') => {
                match self.selected_pane() {
                    Some(p) => Followup::Invoke(Command::ToggleZoom { id: p.id }),
                    None => Followup::Idle,
                }
            },
            Key::Char('w') => {
                match self.selected_pane() {
                    Some(p) => Followup::Invoke(Command::BreakPane { id: p.id }),
                    None => Followup::Idle,
                }
            },
            Key::Enter => self.switch_to_selected_pane(inside),
            _ => Followup::Idle,
        }
    }

    fn handle_preview_key(&mut self, key: Key) -> (f: Followup)
        requires
            old(self).wf(),
            old(self).mode is Normal,
        ensures
            final(self).wf(),
            preview_step(*old(self), key, *final(self), f),
    {
        match key {
            Key::Char('l') | Key::Right => {
                self.focused = self.focused.next();
                Followup::Idle
            },
            Key::Char('h') | Key::Left => {
                self.focused = self.focused.prev();
                Followup::Idle
            },
            _ => Followup::Idle,
        }
    }

    fn handle_normal_key(&mut self, key: Key, inside: bool, now_ms: u64) -> (f: Followup)
        requires
            old(self).wf(),
            old(self).mode is Normal,
        ensures
            final(self).wf(),
            normal_step(*old(self), key, inside, now_ms, *final(self), f),
    {
        match key {
            Key::Char('q') => {
                self.running = false;
                return Followup::Idle;
            },
            Key::Char('?') => {
                self.mode = InputMode::Help;
                return Followup::Idle;
            },
            Key::Char('R') => {
                self.status = Some(
                    StatusMessage {
                        text: String::from_str("Refreshed"),
                        is_error: false,
                        created_ms: now_ms,
                    },
                );
                return Followup::RefreshAll;
            },
            Key::Char('1') => {
                self.focused = Panel::Sessions;
                return Followup::Idle;
            },
            Key::Char('2') => {
                self.focused = Panel::Windows;
                return Followup::Idle;
            },
            Key::Char('3') => {
                self.focused = Panel::Panes;
                return Followup::Idle;
            },
            Key::Char('4') => {
                self.focused = Panel::Preview;
                return Followup::Idle;
            },
            Key::Tab => {
                self.focused = self.focused.next();
                return Followup::Idle;
            },
            Key::BackTab => {
                self.focused = self.focused.prev();
                return Followup::Idle;
            },
            _ => {},
        }
        match self.focused {
            Panel::Sessions => self.handle_sessions_key(key, inside),
            Panel::Windows => self.handle_windows_key(key, inside),
            Panel::Panes => self.handle_panes_key(key, inside),
            Panel::Preview => self.handle_preview_key(key),
        }
    }

    /// Process one key event at `now_ms`: age the status line, then let the
    /// key act according to the current mode. The returned `Followup` is what
    /// the caller owes: a cascade or refresh to fetch, or a command to run.
    pub fn handle_key(&mut self, key: Key, inside_mux: bool, now_ms: u64) -> (f: Followup)
        requires
            old(self).wf(),
        ensures
            final(self).wf(),
            key_step(*old(self), key, inside_mux, now_ms, *final(self), f),
    {
        self.expire_status(now_ms);
        match self.mode {
            InputMode::Help => self.handle_help_key(key),
            InputMode::Confirm => self.handle_confirm_key(key),
            InputMode::TextInput => self.handle_text_input_key(key),
            InputMode::Normal => self.handle_normal_key(key, inside_mux, now_ms),
        }
    }

    /// Record the outcome of an executed command: a success sets a non-error
    /// status line describing the command and owes a full refresh exactly
    /// when the command mutates multiplexer state; a failure sets the error
    /// text verbatim as an error status and owes nothing, leaving state
    /// otherwise untouched.
    pub fn report_command_result(
        &mut self,
        cmd: &Command,
        outcome: Result<(), String>,
        now_ms: u64,
    ) -> (refresh: bool)
        requires
            old(self).wf(),
        ensures
            final(self).wf(),
            refresh == (outcome is Ok && triggers_refresh(*cmd)),
            (match outcome {
                Result::Ok(u) => final(self).status matches Some(m) && m.text@ == success_text(
                    *cmd,
                ) && !m.is_error && m.created_ms == now_ms,
                Result::Err(e) => final(self).status matches Some(m) && m.text@ == e@
                    && m.is_error && m.created_ms == now_ms,
            }),
            (App { status: old(self).status, ..*final(self) } == *old(self)),
    {
        match outcome {
            Result::Ok(_) => {
                let text = success_message(cmd);
                self.status = Some(StatusMessage { text, is_error: false, created_ms: now_ms });
                match cmd {
                    Command::SwitchToSession { .. } => false,
                    Command::SwitchToWindow { .. } => false,
                    Command::SwitchToPane { .. } => false,
                    _ => true,
                }
            },
            Result::Err(e) => {
                self.status = Some(StatusMessage { text: e, is_error: true, created_ms: now_ms });
                false
            },
        }
    }
}

} // verus!
