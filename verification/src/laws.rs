//! System-wide laws proved over the transition relations: refresh
//! idempotence, cascade completeness, and the text-input round trip.

use vstd::prelude::*;

use crate::actions::cancelled_from;
use crate::actions::text_input_started;
use crate::app::App;
use crate::app::Followup;
use crate::app::Panel;
use crate::app::STATUS_DWELL_MS;
use crate::app::StatusMessage;
use crate::app::status_after_expiry;
use crate::app::move_selection_rel;
use crate::app::moved_index;
use crate::app::panes_refreshed;
use crate::app::preview_refreshed;
use crate::app::sessions_refreshed;
use crate::app::windows_refreshed;
use crate::model::TmuxPane;
use crate::model::TmuxSession;
use crate::model::TmuxWindow;
use crate::selection::key_at;
use crate::selection::lemma_resolution_idempotent;
use crate::selection::pane_keys;
use crate::selection::selection_resolved;
use crate::selection::session_keys;
use crate::selection::window_keys;

verus! {

/// Selection validity: in any well-formed state — `App::new` establishes
/// `wf` and every entry point preserves it — each list carries at most one
/// selected index, always a valid position of that list, and an empty list
/// carries none.
pub proof fn lemma_selection_validity(app: App)
    requires
        app.wf(),
    ensures
        crate::selection::sel_in_bounds(app.sessions@.len(), app.session_sel),
        crate::selection::sel_in_bounds(app.windows@.len(), app.window_sel),
        crate::selection::sel_in_bounds(app.panes@.len(), app.pane_sel),
{
}

/// Status-message dwell: `expire_status` runs on every key event and tick,
/// and `tick` and `handle_key` ensure their status is
/// `status_after_expiry(old status, now)` — so a status set at time T is
/// still shown by every query strictly before T plus the dwell time and
/// gone from every query at or past it; in particular it is present four
/// seconds after it was set and absent six seconds after.
pub proof fn lemma_status_dwell(m: StatusMessage, now: u64)
    ensures
        now < m.created_ms + STATUS_DWELL_MS ==> status_after_expiry(Some(m), now) == Some(m),
        now >= m.created_ms + STATUS_DWELL_MS ==> status_after_expiry(Some(m), now) is None,
        m.created_ms + 4000 <= u64::MAX ==> status_after_expiry(
            Some(m),
            (m.created_ms + 4000) as u64,
        ) == Some(m),
        m.created_ms + 6000 <= u64::MAX ==> status_after_expiry(
            Some(m),
            (m.created_ms + 6000) as u64,
        ) is None,
{
}

/// Refresh idempotence for the whole cascade: two full refresh rounds in a
/// row over the same snapshots — sessions re-keyed by name, then windows by
/// the still-selected index, then panes by the still-selected id, exactly as
/// a caller drives them — land on the same selections both times.
pub proof fn lemma_full_refresh_idempotent(
    s0: App,
    s1: App,
    s2: App,
    s3: App,
    s4: App,
    s5: App,
    s6: App,
    sessions: Seq<TmuxSession>,
    windows: Seq<TmuxWindow>,
    panes: Seq<TmuxPane>,
)
    requires
        sessions_refreshed(s0, sessions, s1),
        windows_refreshed(s1, windows, s1.spec_selected_window_index(), s2),
        panes_refreshed(s2, panes, s2.spec_selected_pane_id(), s3),
        sessions_refreshed(s3, sessions, s4),
        windows_refreshed(s4, windows, s4.spec_selected_window_index(), s5),
        panes_refreshed(s5, panes, s5.spec_selected_pane_id(), s6),
    ensures
        s4.session_sel == s1.session_sel,
        s5.window_sel == s2.window_sel,
        s6.pane_sel == s3.pane_sel,
        s6.spec_selected_session_name() == s3.spec_selected_session_name(),
        s6.spec_selected_window_index() == s3.spec_selected_window_index(),
        s6.spec_selected_pane_id() == s3.spec_selected_pane_id(),
{
    // Frames: each stage leaves the other lists and cursors alone.
    assert(s2.sessions == s1.sessions && s2.session_sel == s1.session_sel);
    assert(s3.sessions == s1.sessions && s3.session_sel == s1.session_sel);
    assert(s3.windows == s2.windows && s3.window_sel == s2.window_sel);
    assert(s1.sessions@ == sessions);

    // Sessions: the second resolution is keyed by what the first selected.
    assert(s3.spec_selected_session_name() == key_at(session_keys(sessions), s1.session_sel));
    lemma_resolution_idempotent(
        session_keys(sessions),
        s0.spec_selected_session_name(),
        s1.session_sel,
        s4.session_sel,
    );

    assert(s4.windows == s3.windows && s4.window_sel == s3.window_sel);
    assert(s4.sessions@ == sessions);

    // Windows: either no session is selected and both rounds clear the list,
    // or the second resolution is keyed by what the first selected.
    if s1.spec_selected_session() is Some {
        assert(s4.spec_selected_session() is Some);
        assert(s2.windows@ == windows);
        assert(s4.spec_selected_window_index() == key_at(window_keys(windows), s2.window_sel));
        lemma_resolution_idempotent(
            window_keys(windows),
            s1.spec_selected_window_index(),
            s2.window_sel,
            s5.window_sel,
        );
    } else {
        assert(s4.spec_selected_session() is None);
        assert(s5.window_sel is None && s2.window_sel is None);
    }

    assert(s5.sessions == s4.sessions && s5.session_sel == s4.session_sel);
    assert(s5.panes == s4.panes && s5.pane_sel == s4.pane_sel);
    assert(s4.panes == s3.panes && s4.pane_sel == s3.pane_sel);

    // Panes: the same argument, scoped to a complete (session, window) pair.
    if s2.spec_selected_session() is Some && s2.spec_selected_window() is Some {
        assert(s3.panes@ == panes);
        assert(s5.spec_selected_session() is Some);
        assert(s5.windows@ == s2.windows@ && s5.window_sel == s2.window_sel);
        assert(s5.spec_selected_window() is Some);
        assert(s5.spec_selected_pane_id() == key_at(pane_keys(panes), s3.pane_sel));
        lemma_resolution_idempotent(
            pane_keys(panes),
            s2.spec_selected_pane_id(),
            s3.pane_sel,
            s6.pane_sel,
        );
    } else {
        assert(s3.pane_sel is None);
        assert(!(s5.spec_selected_session() is Some && s5.spec_selected_window() is Some));
        assert(s6.pane_sel is None);
    }

    // Same selections over the same lists name the same identities.
    assert(s6.sessions@ == s3.sessions@ && s6.session_sel == s3.session_sel);
    assert(s6.windows@ == s3.windows@ && s6.window_sel == s3.window_sel);
    assert(s6.panes@ == s3.panes@ && s6.pane_sel == s3.pane_sel);
}

/// Cascade completeness: moving the session selection on a non-empty list
/// demands the full cascade, and once the caller applies it — windows, then
/// panes, then preview, each scoped to the freshly selected parent — every
/// dependent list and the capture buffer hold only data of the new scope,
/// with selections reset to the first entry and cleared on empty lists.
pub proof fn lemma_cascade_completeness(
    pre: App,
    s1: App,
    f: Followup,
    delta: int,
    wlist: Seq<TmuxWindow>,
    s2: App,
    plist: Seq<TmuxPane>,
    s3: App,
    cap: Seq<char>,
    s4: App,
)
    requires
        pre.wf(),
        pre.sessions@.len() > 0,
        delta == 1 || delta == -1,
        move_selection_rel(pre, Panel::Sessions, delta, s1, f),
        windows_refreshed(s1, wlist, Option::<u32>::None, s2),
        panes_refreshed(s2, plist, Option::<Seq<char>>::None, s3),
        preview_refreshed(s3, cap, s4),
    ensures
        f == Followup::Cascade(Panel::Sessions),
        s4.sessions@ == pre.sessions@,
        s4.session_sel == Some(moved_index(pre.sessions@.len(), pre.session_sel, delta) as usize),
        s4.windows@ == wlist,
        selection_resolved(window_keys(wlist), Option::<u32>::None, s4.window_sel),
        wlist.len() > 0 ==> s4.panes@ == plist && selection_resolved(
            pane_keys(plist),
            Option::<Seq<char>>::None,
            s4.pane_sel,
        ),
        wlist.len() == 0 ==> s4.panes@.len() == 0 && s4.pane_sel is None,
        (wlist.len() > 0 && plist.len() > 0) ==> s4.pane_capture@ == cap,
        (wlist.len() == 0 || plist.len() == 0) ==> s4.pane_capture@.len() == 0,
{
    let len = pre.sessions@.len();
    let moved = moved_index(len, pre.session_sel, delta);
    assert(0 <= moved < len);
    assert(s1.spec_selected_session() is Some);
    assert(s2.session_sel == s1.session_sel && s2.sessions == s1.sessions);
    assert(s2.spec_selected_session() is Some);
    if wlist.len() > 0 {
        assert(s2.spec_selected_window() is Some);
        assert(s3.spec_selected_window() is Some);
        if plist.len() > 0 {
            assert(s3.spec_selected_pane() is Some);
        } else {
            assert(s3.spec_selected_pane() is None);
        }
    } else {
        assert(s2.window_sel is None);
        assert(s3.spec_selected_pane() is None);
    }
}

/// Action-engine round trip: entering text input from normal mode and then
/// cancelling restores the pre-entry state — the mode is normal again, every
/// transient field is clear exactly as it was (normal mode keeps them
/// clear), and no other field ever changed.
pub proof fn lemma_text_input_round_trip(
    pre: App,
    mid: App,
    post: App,
    prompt: Seq<char>,
    prefill: Seq<char>,
)
    requires
        pre.wf(),
        pre.mode is Normal,
        text_input_started(pre, mid, prompt, prefill),
        cancelled_from(mid, post),
    ensures
        post.mode == pre.mode,
        post.transients_clear(),
        pre.transients_clear(),
        post.input_buffer@ == pre.input_buffer@,
        post.input_prompt@ == pre.input_prompt@,
        post.confirm_message@ == pre.confirm_message@,
        post.pending_action == pre.pending_action,
        (App {
            mode: pre.mode,
            input_buffer: pre.input_buffer,
            input_prompt: pre.input_prompt,
            confirm_message: pre.confirm_message,
            pending_action: pre.pending_action,
            ..post
        } == pre),
{
    assert(mid.sessions == pre.sessions && mid.windows == pre.windows && mid.panes == pre.panes
        && mid.pane_capture == pre.pane_capture && mid.session_sel == pre.session_sel
        && mid.window_sel == pre.window_sel && mid.pane_sel == pre.pane_sel && mid.focused
        == pre.focused && mid.running == pre.running && mid.should_suspend == pre.should_suspend
        && mid.suspend_target == pre.suspend_target && mid.status == pre.status
        && mid.last_refresh_ms == pre.last_refresh_ms && mid.refresh_interval_ms
        == pre.refresh_interval_ms && mid.confirm_message == pre.confirm_message);
}

} // verus!
