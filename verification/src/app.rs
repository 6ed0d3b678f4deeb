//! The dashboard state: three cascading lists with single-selection cursors,
//! the focus ring, the modal action engine's transient fields, and the
//! auto-expiring status line.
//!
//! All state changes are driven from outside: snapshot lists fetched from the
//! multiplexer are passed into the refresh entry points, key events into the
//! action engine, and the current time into everything that ages. The
//! invariant `wf` — at most one selected index per list, always in bounds,
//! never a selection on an empty list, transient fields tied to the mode —
//! is established by `new` and preserved by every entry point.

use vstd::prelude::*;

use crate::model::TmuxPane;
use crate::model::TmuxSession;
use crate::model::TmuxWindow;
use crate::selection::opt_str_key;
use crate::selection::pane_keys;
use crate::selection::resolve_pane_selection;
use crate::selection::resolve_session_selection;
use crate::selection::resolve_window_selection;
use crate::selection::sel_in_bounds;
use crate::selection::selection_resolved;
use crate::selection::session_keys;
use crate::selection::window_keys;

verus! {

/// The four panels of the dashboard, in their fixed ring order.
#[derive(Clone, Copy, Debug, PartialEq, Eq, Structural)]
pub enum Panel {
    Sessions,
    Windows,
    Panes,
    Preview,
}

/// The panel `index` places at each ring position.
pub open spec fn panel_at(i: int) -> Panel {
    if i == 0 {
        Panel::Sessions
    } else if i == 1 {
        Panel::Windows
    } else if i == 2 {
        Panel::Panes
    } else {
        Panel::Preview
    }
}

/// The panel after `p` in ring order.
pub open spec fn ring_next(p: Panel) -> Panel {
    match p {
        Panel::Sessions => Panel::Windows,
        Panel::Windows => Panel::Panes,
        Panel::Panes => Panel::Preview,
        Panel::Preview => Panel::Sessions,
    }
}

/// The panel before `p` in ring order.
pub open spec fn ring_prev(p: Panel) -> Panel {
    match p {
        Panel::Sessions => Panel::Preview,
        Panel::Windows => Panel::Sessions,
        Panel::Panes => Panel::Windows,
        Panel::Preview => Panel::Panes,
    }
}

impl Panel {
    /// Position of this panel in the ring.
    pub fn index(self) -> (r: usize)
        ensures
            r < 4,
            panel_at(r as int) == self,
    {
        match self {
            Panel::Sessions => 0,
            Panel::Windows => 1,
            Panel::Panes => 2,
            Panel::Preview => 3,
        }
    }

    /// The panel at ring position `i`, wrapping past the end.
    pub fn from_index(i: usize) -> (r: Self)
        ensures
            r == panel_at(i as int % 4),
    {
        let k = i % 4;
        if k == 0 {
            Panel::Sessions
        } else if k == 1 {
            Panel::Windows
        } else if k == 2 {
            Panel::Panes
        } else {
            Panel::Preview
        }
    }

    /// Display title of the panel.
    pub fn label(self) -> (r: &'static str)
        ensures
            self is Sessions ==> r@ == "Sessions"@,
            self is Windows ==> r@ == "Windows"@,
            self is Panes ==> r@ == "Panes"@,
            self is Preview ==> r@ == "Preview"@,
    {
        match self {
            Panel::Sessions => "Sessions",
            Panel::Windows => "Windows",
            Panel::Panes => "Panes",
            Panel::Preview => "Preview",
        }
    }

    /// The next panel in ring order.
    pub fn next(self) -> (r: Self)
        ensures
            r == ring_next(self),
    {
        match self {
            Panel::Sessions => Panel::Windows,
            Panel::Windows => Panel::Panes,
            Panel::Panes => Panel::Preview,
            Panel::Preview => Panel::Sessions,
        }
    }

    /// The previous panel in ring order.
    pub fn prev(self) -> (r: Self)
        ensures
            r == ring_prev(self),
    {
        match self {
            Panel::Sessions => Panel::Preview,
            Panel::Windows => Panel::Sessions,
            Panel::Panes => Panel::Windows,
            Panel::Preview => Panel::Panes,
        }
    }
}

/// The action engine's mode.
#[derive(Clone, Copy, Debug, PartialEq, Eq, Structural)]
pub enum InputMode {
    Normal,
    TextInput,
    Confirm,
    Help,
}

/// A mutating operation waiting for its prompt or confirmation.
#[derive(Debug)]
pub enum PendingAction {
    CreateSession,
    RenameSession(String),
    CreateWindow,
    RenameWindow(String, u32),
    KillSession(String),
    KillWindow(String, u32),
    KillPane(String),
}

/// A transient status line: its text, whether it reports an error, and when
/// it was set (milliseconds on the caller's clock).
#[derive(Debug)]
pub struct StatusMessage {
    pub text: String,
    pub is_error: bool,
    pub created_ms: u64,
}

/// How long a status message stays visible, in milliseconds.
pub const STATUS_DWELL_MS: u64 = 5000;

/// How long between forced refreshes, in milliseconds.
pub const REFRESH_INTERVAL_MS: u64 = 2000;

/// The dashboard state.
pub struct App {
    pub running: bool,
    pub should_suspend: bool,
    pub suspend_target: Option<String>,
    pub focused: Panel,
    pub mode: InputMode,
    pub sessions: Vec<TmuxSession>,
    pub windows: Vec<TmuxWindow>,
    pub panes: Vec<TmuxPane>,
    pub pane_capture: String,
    pub session_sel: Option<usize>,
    pub window_sel: Option<usize>,
    pub pane_sel: Option<usize>,
    pub input_buffer: String,
    pub input_prompt: String,
    pub pending_action: Option<PendingAction>,
    pub confirm_message: String,
    pub status: Option<StatusMessage>,
    pub last_refresh_ms: u64,
    pub refresh_interval_ms: u64,
}

/// `st` after lazy expiry at `now`: dropped once the dwell time has elapsed.
pub open spec fn status_after_expiry(st: Option<StatusMessage>, now: u64) -> Option<
    StatusMessage,
> {
    match st {
        Some(m) => if now >= m.created_ms + STATUS_DWELL_MS {
            Option::<StatusMessage>::None
        } else {
            Some(m)
        },
        None => Option::<StatusMessage>::None,
    }
}

impl App {
    /// The transient prompt, buffer, confirmation and pending action are all
    /// clear.
    pub open spec fn transients_clear(self) -> bool {
        &&& self.input_buffer@.len() == 0
        &&& self.input_prompt@.len() == 0
        &&& self.confirm_message@.len() == 0
        &&& self.pending_action is None
    }

    /// The state invariant: every selection is a valid index of its list and
    /// absent exactly on an empty list; the transient fields exist only in
    /// the modes that use them; a suspend request always carries its target.
    pub open spec fn wf(self) -> bool {
        &&& sel_in_bounds(self.sessions@.len(), self.session_sel)
        &&& sel_in_bounds(self.windows@.len(), self.window_sel)
        &&& sel_in_bounds(self.panes@.len(), self.pane_sel)
        &&& (self.mode is Normal ==> self.transients_clear())
        &&& (self.mode is Help ==> self.transients_clear())
        &&& (self.mode is TextInput ==> self.pending_action is Some && self.confirm_message@.len()
            == 0)
        &&& (self.mode is Confirm ==> self.pending_action is Some && self.input_buffer@.len() == 0
            && self.input_prompt@.len() == 0)
        &&& (self.should_suspend ==> self.suspend_target is Some)
    }

    /// The session record the cursor points at, if any.
    pub open spec fn spec_selected_session(self) -> Option<TmuxSession> {
        match self.session_sel {
            Some(i) => if i < self.sessions@.len() {
                Some(self.sessions@[i as int])
            } else {
                Option::<TmuxSession>::None
            },
            None => Option::<TmuxSession>::None,
        }
    }

    /// The selected session's identity key.
    pub open spec fn spec_selected_session_name(self) -> Option<Seq<char>> {
        match self.spec_selected_session() {
            Some(s) => Some(s.name@),
            None => Option::<Seq<char>>::None,
        }
    }

    /// The window record the cursor points at, if any.
    pub open spec fn spec_selected_window(self) -> Option<TmuxWindow> {
        match self.window_sel {
            Some(i) => if i < self.windows@.len() {
                Some(self.windows@[i as int])
            } else {
                Option::<TmuxWindow>::None
            },
            None => Option::<TmuxWindow>::None,
        }
    }

    /// The selected window's identity key.
    pub open spec fn spec_selected_window_index(self) -> Option<u32> {
        match self.spec_selected_window() {
            Some(w) => Some(w.index),
            None => Option::<u32>::None,
        }
    }

    /// The pane record the cursor points at, if any.
    pub open spec fn spec_selected_pane(self) -> Option<TmuxPane> {
        match self.pane_sel {
            Some(i) => if i < self.panes@.len() {
                Some(self.panes@[i as int])
            } else {
                Option::<TmuxPane>::None
            },
            None => Option::<TmuxPane>::None,
        }
    }

    /// The selected pane's identity key.
    pub open spec fn spec_selected_pane_id(self) -> Option<Seq<char>> {
        match self.spec_selected_pane() {
            Some(p) => Some(p.id@),
            None => Option::<Seq<char>>::None,
        }
    }

    /// A fresh dashboard: normal mode, sessions panel focused, every list
    /// empty with no selection, no transient state, no status.
    pub fn new(now_ms: u64) -> (r: Self)
        ensures
            r.wf(),
            r.running,
            !r.should_suspend,
            r.suspend_target is None,
            r.focused is Sessions,
            r.mode is Normal,
            r.sessions@.len() == 0,
            r.windows@.len() == 0,
            r.panes@.len() == 0,
            r.pane_capture@.len() == 0,
            r.session_sel is None,
            r.window_sel is None,
            r.pane_sel is None,
            r.transients_clear(),
            r.status is None,
            r.last_refresh_ms == now_ms,
            r.refresh_interval_ms == REFRESH_INTERVAL_MS,
    {
        App {
            running: true,
            should_suspend: false,
            suspend_target: None,
            focused: Panel::Sessions,
            mode: InputMode::Normal,
            sessions: Vec::new(),
            windows: Vec::new(),
            panes: Vec::new(),
            pane_capture: String::new(),
            session_sel: None,
            window_sel: None,
            pane_sel: None,
            input_buffer: String::new(),
            input_prompt: String::new(),
            pending_action: None,
            confirm_message: String::new(),
            status: None,
            last_refresh_ms: now_ms,
            refresh_interval_ms: REFRESH_INTERVAL_MS,
        }
    }

    /// An owned copy of the selected session record, if any.
    pub fn selected_session(&self) -> (r: Option<TmuxSession>)
        ensures
            r == self.spec_selected_session(),
    {
        match self.session_sel {
            Some(i) => if i < self.sessions.len() {
                Some(self.sessions[i].clone())
            } else {
                None
            },
            None => None,
        }
    }

    /// The selected session's name, if any.
    pub fn selected_session_name(&self) -> (r: Option<String>)
        ensures
            opt_str_key(r) == self.spec_selected_session_name(),
            r is Some <==> self.spec_selected_session() is Some,
    {
        match self.selected_session() {
            Some(s) => Some(s.name),
            None => None,
        }
    }

    /// An owned copy of the selected window record, if any.
    pub fn selected_window(&self) -> (r: Option<TmuxWindow>)
        ensures
            r == self.spec_selected_window(),
    {
        match self.window_sel {
            Some(i) => if i < self.windows.len() {
                Some(self.windows[i].clone())
            } else {
                None
            },
            None => None,
        }
    }

    /// The selected window's index, if any.
    pub fn selected_window_index(&self) -> (r: Option<u32>)
        ensures
            r == self.spec_selected_window_index(),
    {
        match self.selected_window() {
            Some(w) => Some(w.index),
            None => None,
        }
    }

    /// An owned copy of the selected pane record, if any.
    pub fn selected_pane(&self) -> (r: Option<TmuxPane>)
        ensures
            r == self.spec_selected_pane(),
    {
        match self.pane_sel {
            Some(i) => if i < self.panes.len() {
                Some(self.panes[i].clone())
            } else {
                None
            },
            None => None,
        }
    }

    /// The selected pane's id, if any.
    pub fn selected_pane_id(&self) -> (r: Option<String>)
        ensures
            opt_str_key(r) == self.spec_selected_pane_id(),
            r is Some <==> self.spec_selected_pane() is Some,
    {
        match self.selected_pane() {
            Some(p) => Some(p.id),
            None => None,
        }
    }
}

/// One synchronous call for the command executor to make against the
/// multiplexer. The action engine hands these out; the caller executes them
/// and reports the outcome back through `report_command_result`.
#[derive(Debug, PartialEq)]
#[allow(inconsistent_fields)]
pub enum Command {
    NewSession { name: String },
    KillSession { name: String },
    RenameSession { old_name: String, new_name: String },
    NewWindow { session: String, name: Option<String> },
    KillWindow { session: String, index: u32 },
    RenameWindow { session: String, index: u32, name: String },
    SplitPaneVertical { pane: String },
    SplitPaneHorizontal { pane: String },
    KillPane { id: String },
    ToggleZoom { id: String },
    BreakPane { id: String },
    SwitchToSession { name: String },
    SwitchToWindow { session: String, index: u32 },
    SwitchToPane { session: String, window_index: u32, pane_index: u32, pane_id: String },
}

/// What the caller owes the core after a key event: nothing, a full
/// identity-preserving refresh, a cascade re-derivation of everything below
/// the named panel (with selections falling back to index 0), or a command
/// execution followed by `report_command_result`.
#[derive(Debug, PartialEq)]
pub enum Followup {
    Idle,
    RefreshAll,
    Cascade(Panel),
    Invoke(Command),
}

/// The selection index after one navigation step of `delta`, clamped at both
/// ends of a non-empty list, with an unset cursor treated as index 0.
pub open spec fn moved_index(len: nat, sel: Option<usize>, delta: int) -> int {
    let cur: int = match sel {
        Some(i) => i as int,
        None => 0,
    };
    if delta == 1 {
        if cur >= len - 1 {
            len - 1
        } else {
            cur + 1
        }
    } else {
        if cur <= 0 {
            0
        } else {
            cur - 1
        }
    }
}

/// Navigation within `panel` moved its selection one step and demands the
/// cascade below that panel; on an empty list (the preview has none) nothing
/// changed and nothing is owed.
pub open spec fn move_selection_rel(
    pre: App,
    panel: Panel,
    delta: int,
    post: App,
    f: Followup,
) -> bool {
    match panel {
        Panel::Sessions => if pre.sessions@.len() == 0 {
            post == pre && f is Idle
        } else {
            &&& post.session_sel == Some(
                moved_index(pre.sessions@.len(), pre.session_sel, delta) as usize,
            )
            &&& (App { session_sel: pre.session_sel, ..post } == pre)
            &&& f == Followup::Cascade(Panel::Sessions)
        },
        Panel::Windows => if pre.windows@.len() == 0 {
            post == pre && f is Idle
        } else {
            &&& post.window_sel == Some(
                moved_index(pre.windows@.len(), pre.window_sel, delta) as usize,
            )
            &&& (App { window_sel: pre.window_sel, ..post } == pre)
            &&& f == Followup::Cascade(Panel::Windows)
        },
        Panel::Panes => if pre.panes@.len() == 0 {
            post == pre && f is Idle
        } else {
            &&& post.pane_sel == Some(moved_index(pre.panes@.len(), pre.pane_sel, delta) as usize)
            &&& (App { pane_sel: pre.pane_sel, ..post } == pre)
            &&& f == Followup::Cascade(Panel::Panes)
        },
        Panel::Preview => post == pre && f is Idle,
    }
}

/// The session list was replaced by `list` and the selection re-resolved by
/// the previously selected name; nothing else changed.
pub open spec fn sessions_refreshed(pre: App, list: Seq<TmuxSession>, post: App) -> bool {
    &&& post.sessions@ == list
    &&& selection_resolved(session_keys(list), pre.spec_selected_session_name(), post.session_sel)
    &&& (App { sessions: pre.sessions, session_sel: pre.session_sel, ..post } == pre)
}

/// The window list was re-derived for the selected session: replaced by
/// `list` with the selection resolved by `preferred` when a session is
/// selected, cleared outright when none is; nothing else changed.
pub open spec fn windows_refreshed(
    pre: App,
    list: Seq<TmuxWindow>,
    preferred: Option<u32>,
    post: App,
) -> bool {
    &&& if pre.spec_selected_session() is Some {
        &&& post.windows@ == list
        &&& selection_resolved(window_keys(list), preferred, post.window_sel)
    } else {
        &&& post.windows@.len() == 0
        &&& post.window_sel is None
    }
    &&& (App { windows: pre.windows, window_sel: pre.window_sel, ..post } == pre)
}

/// The pane list was re-derived for the selected (session, window) scope:
/// replaced by `list` with the selection resolved by `preferred` when the
/// scope is complete, cleared outright when it is not; nothing else changed.
pub open spec fn panes_refreshed(
    pre: App,
    list: Seq<TmuxPane>,
    preferred: Option<Seq<char>>,
    post: App,
) -> bool {
    &&& if pre.spec_selected_session() is Some && pre.spec_selected_window() is Some {
        &&& post.panes@ == list
        &&& selection_resolved(pane_keys(list), preferred, post.pane_sel)
    } else {
        &&& post.panes@.len() == 0
        &&& post.pane_sel is None
    }
    &&& (App { panes: pre.panes, pane_sel: pre.pane_sel, ..post } == pre)
}

/// The capture buffer was re-derived: the fetched text when a pane is
/// selected, cleared when none is; nothing else changed.
pub open spec fn preview_refreshed(pre: App, capture: Seq<char>, post: App) -> bool {
    &&& if pre.spec_selected_pane() is Some {
        post.pane_capture@ == capture
    } else {
        post.pane_capture@.len() == 0
    }
    &&& (App { pane_capture: pre.pane_capture, ..post } == pre)
}

impl App {
    /// Replace the session list with a fresh snapshot, preserving the
    /// selection by name: the previously selected session is re-found by its
    /// name, a vanished name falls back to index 0, an empty list clears the
    /// selection.
    pub fn refresh_sessions(&mut self, list: Vec<TmuxSession>)
        requires
            old(self).wf(),
        ensures
            final(self).wf(),
            sessions_refreshed(*old(self), list@, *final(self)),
    {
        let prev = self.selected_session_name();
        let sel = resolve_session_selection(&list, &prev);
        self.sessions = list;
        self.session_sel = sel;
        proof {
            crate::selection::lemma_resolved_in_bounds(
                session_keys(self.sessions@),
                opt_str_key(prev),
                sel,
            );
        }
    }

    /// Replace the window list for the selected session, preserving the
    /// selection by the `preferred` window index; with no session selected,
    /// clear the list and selection.
    pub fn refresh_windows(&mut self, list: Vec<TmuxWindow>, preferred: Option<u32>)
        requires
            old(self).wf(),
        ensures
            final(self).wf(),
            windows_refreshed(*old(self), list@, preferred, *final(self)),
    {
        let scoped = match self.session_sel {
            Some(i) => i < self.sessions.len(),
            None => false,
        };
        if scoped {
            let sel = resolve_window_selection(&list, preferred);
            self.windows = list;
            self.window_sel = sel;
            proof {
                crate::selection::lemma_resolved_in_bounds(
                    window_keys(self.windows@),
                    preferred,
                    sel,
                );
            }
        } else {
            self.windows = Vec::new();
            self.window_sel = None;
        }
    }

    /// Replace the pane list for the selected (session, window) scope,
    /// preserving the selection by the `preferred` pane id; with an
    /// incomplete scope, clear the list and selection.
    pub fn refresh_panes(&mut self, list: Vec<TmuxPane>, preferred: Option<String>)
        requires
            old(self).wf(),
        ensures
            final(self).wf(),
            panes_refreshed(*old(self), list@, opt_str_key(preferred), *final(self)),
    {
        let session_scoped = match self.session_sel {
            Some(i) => i < self.sessions.len(),
            None => false,
        };
        let window_scoped = match self.window_sel {
            Some(i) => i < self.windows.len(),
            None => false,
        };
        if session_scoped && window_scoped {
            let sel = resolve_pane_selection(&list, &preferred);
            self.panes = list;
            self.pane_sel = sel;
            proof {
                crate::selection::lemma_resolved_in_bounds(
                    pane_keys(self.panes@),
                    opt_str_key(preferred),
                    sel,
                );
            }
        } else {
            self.panes = Vec::new();
            self.pane_sel = None;
        }
    }

    /// Replace the capture buffer with the fetched text of the selected
    /// pane; with no pane selected, clear it.
    pub fn refresh_preview(&mut self, capture: String)
        requires
            old(self).wf(),
        ensures
            final(self).wf(),
            preview_refreshed(*old(self), capture@, *final(self)),
    {
        let scoped = match self.pane_sel {
            Some(i) => i < self.panes.len(),
            None => false,
        };
        if scoped {
            self.pane_capture = capture;
        } else {
            self.pane_capture = String::new();
        }
    }

    /// Move the selection of `panel` one step (`delta` is +1 or -1), clamped
    /// at the list boundaries, a no-op on an empty list. A change of
    /// selection demands the cascade below the panel, so the dependent state
    /// is never left pointing at the old scope.
    pub fn move_selection(&mut self, panel: Panel, delta: i32) -> (f: Followup)
        requires
            old(self).wf(),
            delta == 1i32 || delta == -1i32,
        ensures
            final(self).wf(),
            move_selection_rel(*old(self), panel, delta as int, *final(self), f),
    {
        match panel {
            Panel::Sessions => {
                let len = self.sessions.len();
                if len == 0 {
                    return Followup::Idle;
                }
                let cur: usize = match self.session_sel {
                    Some(i) => i,
                    None => 0,
                };
                let next: usize = if delta == 1 {
                    if cur >= len - 1 {
                        len - 1
                    } else {
                        cur + 1
                    }
                } else {
                    if cur == 0 {
                        0
                    } else {
                        cur - 1
                    }
                };
                self.session_sel = Some(next);
                Followup::Cascade(Panel::Sessions)
            },
            Panel::Windows => {
                let len = self.windows.len();
                if len == 0 {
                    return Followup::Idle;
                }
                let cur: usize = match self.window_sel {
                    Some(i) => i,
                    None => 0,
                };
                let next: usize = if delta == 1 {
                    if cur >= len - 1 {
                        len - 1
                    } else {
                        cur + 1
                    }
                } else {
                    if cur == 0 {
                        0
                    } else {
                        cur - 1
                    }
                };
                self.window_sel = Some(next);
                Followup::Cascade(Panel::Windows)
            },
            Panel::Panes => {
                let len = self.panes.len();
                if len == 0 {
                    return Followup::Idle;
                }
                let cur: usize = match self.pane_sel {
                    Some(i) => i,
                    None => 0,
                };
                let next: usize = if delta == 1 {
                    if cur >= len - 1 {
                        len - 1
                    } else {
                        cur + 1
                    }
                } else {
                    if cur == 0 {
                        0
                    } else {
                        cur - 1
                    }
                };
                self.pane_sel = Some(next);
                Followup::Cascade(Panel::Panes)
            },
            Panel::Preview => Followup::Idle,
        }
    }

    /// Lazily expire the status line at `now_ms`.
    pub(crate) fn expire_status(&mut self, now_ms: u64)
        ensures
            (*final(self) == (App {
                status: status_after_expiry(old(self).status, now_ms),
                ..*old(self)
            })),
    {
        let expired = match &self.status {
            Some(m) => now_ms >= m.created_ms && now_ms - m.created_ms >= STATUS_DWELL_MS,
            None => false,
        };
        if expired {
            self.status = None;
        }
    }

    /// A periodic tick: age the status line and report whether the refresh
    /// interval has elapsed, in which case the caller owes a full refresh.
    pub fn tick(&mut self, now_ms: u64) -> (refresh: bool)
        requires
            old(self).wf(),
        ensures
            final(self).wf(),
            refresh == (now_ms >= old(self).last_refresh_ms + old(self).refresh_interval_ms),
            (*final(self) == (App {
                status: status_after_expiry(old(self).status, now_ms),
                ..*old(self)
            })),
    {
        self.expire_status(now_ms);
        now_ms >= self.last_refresh_ms && now_ms - self.last_refresh_ms
            >= self.refresh_interval_ms
    }

    /// Record that a full refresh finished at `now_ms`.
    pub fn mark_refreshed(&mut self, now_ms: u64)
        requires
            old(self).wf(),
        ensures
            final(self).wf(),
            final(self).last_refresh_ms == now_ms,
            (App { last_refresh_ms: old(self).last_refresh_ms, ..*final(self) } == *old(self)),
    {
        self.last_refresh_ms = now_ms;
    }
}

} // verus!
