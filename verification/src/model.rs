//! Immutable snapshot records of multiplexer state, as the command executor
//! reports them. The core never edits a record in place; refreshes replace
//! whole lists.

use vstd::prelude::*;

verus! {

/// A top-level named container of windows. The name is the identity that
/// survives a refresh.
#[derive(Debug)]
pub struct TmuxSession {
    pub name: String,
    pub id: String,
    pub windows: u32,
    pub attached: bool,
    pub created: u64,
    pub last_activity: u64,
}

/// A tab-like container of panes, identified within its session by `index`.
#[derive(Debug)]
pub struct TmuxWindow {
    pub name: String,
    pub index: u32,
    pub id: String,
    pub active: bool,
    pub panes: u32,
    pub layout: String,
    pub flags: String,
}

/// A single terminal viewport running one process, identified globally by
/// `id`. Offsets and sizes are in multiplexer cell units, relative to the
/// window origin.
#[derive(Debug)]
pub struct TmuxPane {
    pub id: String,
    pub index: u32,
    pub active: bool,
    pub command: String,
    pub width: u32,
    pub height: u32,
    pub top: u32,
    pub left: u32,
    pub cwd: String,
    pub pid: u32,
}

/// Spec-level image of a session record, with strings as character
/// sequences.
pub struct SessionView {
    pub name: Seq<char>,
    pub id: Seq<char>,
    pub windows: u32,
    pub attached: bool,
    pub created: u64,
    pub last_activity: u64,
}

/// Spec-level image of a window record.
pub struct WindowView {
    pub name: Seq<char>,
    pub index: u32,
    pub id: Seq<char>,
    pub active: bool,
    pub panes: u32,
    pub layout: Seq<char>,
    pub flags: Seq<char>,
}

/// Spec-level image of a pane record.
pub struct PaneView {
    pub id: Seq<char>,
    pub index: u32,
    pub active: bool,
    pub command: Seq<char>,
    pub width: u32,
    pub height: u32,
    pub top: u32,
    pub left: u32,
    pub cwd: Seq<char>,
    pub pid: u32,
}

impl View for TmuxSession {
    type V = SessionView;

    open spec fn view(&self) -> SessionView {
        SessionView {
            name: self.name@,
            id: self.id@,
            windows: self.windows,
            attached: self.attached,
            created: self.created,
            last_activity: self.last_activity,
        }
    }
}

impl View for TmuxWindow {
    type V = WindowView;

    open spec fn view(&self) -> WindowView {
        WindowView {
            name: self.name@,
            index: self.index,
            id: self.id@,
            active: self.active,
            panes: self.panes,
            layout: self.layout@,
            flags: self.flags@,
        }
    }
}

impl View for TmuxPane {
    type V = PaneView;

    open spec fn view(&self) -> PaneView {
        PaneView {
            id: self.id@,
            index: self.index,
            active: self.active,
            command: self.command@,
            width: self.width,
            height: self.height,
            top: self.top,
            left: self.left,
            cwd: self.cwd@,
            pid: self.pid,
        }
    }
}

impl Clone for TmuxSession {
    fn clone(&self) -> (r: Self)
        ensures
            r == *self,
    {
        let r = TmuxSession {
            name: self.name.clone(),
            id: self.id.clone(),
            windows: self.windows,
            attached: self.attached,
            created: self.created,
            last_activity: self.last_activity,
        };
        r
    }
}

impl Clone for TmuxWindow {
    fn clone(&self) -> (r: Self)
        ensures
            r == *self,
    {
        let r = TmuxWindow {
            name: self.name.clone(),
            index: self.index,
            id: self.id.clone(),
            active: self.active,
            panes: self.panes,
            layout: self.layout.clone(),
            flags: self.flags.clone(),
        };
        r
    }
}

impl Clone for TmuxPane {
    fn clone(&self) -> (r: Self)
        ensures
            r == *self,
    {
        let r = TmuxPane {
            id: self.id.clone(),
            index: self.index,
            active: self.active,
            command: self.command.clone(),
            width: self.width,
            height: self.height,
            top: self.top,
            left: self.left,
            cwd: self.cwd.clone(),
            pid: self.pid,
        };
        r
    }
}

} // verus!
