//! When a modal dialog closes, and where keyboard focus goes.
//!
//! A modal is shown while its bound `open` flag is set. The user dismisses
//! it by clicking the backdrop, pressing `Esc` or clicking the close button,
//! each only while the modal is closable (and the first two only when
//! enabled). The modal records which widget had focus when it opened and
//! gives focus back to it when it closes, whether the user closed it or the
//! caller cleared the flag. Rendering happens in the application layer.

use egui::Id;
use vstd::prelude::*;

verus! {

/// egui's widget identifier.
#[verifier::external_type_specification]
#[verifier::external_body]
pub struct ExId(egui::Id);

/// Focus lifecycle of one modal, kept between frames.
#[derive(Clone, Copy, Debug, PartialEq)]
pub struct ModalFocusState {
    /// Whether the modal was shown last frame.
    pub was_open: bool,
    /// Which widget had keyboard focus when the modal opened.
    pub prev_focus: Option<Id>,
}

impl Default for ModalFocusState {
    fn default() -> (s: ModalFocusState)
        ensures
            !s.was_open,
            s.prev_focus is None,
    {
        ModalFocusState { was_open: false, prev_focus: None }
    }
}

/// What the modal does at the start of a frame.
#[derive(Clone, Copy, Debug, PartialEq)]
pub enum ModalEntry {
    /// Not shown, nothing to do.
    Hidden,
    /// Closed since last frame (by the caller): give focus back to `restore`
    /// and render nothing.
    JustClosed { restore: Option<Id> },
    /// Shown this frame; `just_opened` on the first frame.
    Shown { just_opened: bool },
}

/// The empty lifecycle: not open, nothing to restore.
pub open spec fn idle_focus_state() -> ModalFocusState {
    ModalFocusState { was_open: false, prev_focus: None }
}

/// The entry of a frame and the lifecycle after it, for a modal in `s`
/// whose flag is `is_open` while `focused` has focus.
pub open spec fn entered(s: ModalFocusState, is_open: bool, focused: Option<Id>) -> (
    ModalEntry,
    ModalFocusState,
) {
    if s.was_open && !is_open {
        (ModalEntry::JustClosed { restore: s.prev_focus }, idle_focus_state())
    } else if !is_open {
        (ModalEntry::Hidden, s)
    } else if s.was_open {
        (ModalEntry::Shown { just_opened: false }, s)
    } else {
        (ModalEntry::Shown { just_opened: true }, ModalFocusState { was_open: true, prev_focus: focused })
    }
}

/// Start a frame of a modal whose bound flag is `is_open`, while `focused`
/// has keyboard focus.
///
/// A modal that was open and no longer is reports the focus to restore and
/// forgets its lifecycle. A modal that opens records the focused widget.
pub fn enter_frame(state: &mut ModalFocusState, is_open: bool, focused: Option<Id>) -> (e: ModalEntry)
    ensures
        (e, *final(state)) == entered(*old(state), is_open, focused),
{
    if state.was_open && !is_open {
        let restore = state.prev_focus;
        *state = ModalFocusState { was_open: false, prev_focus: None };
        return ModalEntry::JustClosed { restore };
    }
    if !is_open {
        return ModalEntry::Hidden;
    }
    let just_opened = !state.was_open;
    if just_opened {
        state.prev_focus = focused;
        state.was_open = true;
    }
    ModalEntry::Shown { just_opened }
}

/// Whether the user dismissed the modal this frame.
pub open spec fn dismissed(
    closable: bool,
    close_on_backdrop: bool,
    backdrop_clicked: bool,
    close_on_escape: bool,
    escape_pressed: bool,
    close_button_clicked: bool,
) -> bool {
    closable && ((close_on_backdrop && backdrop_clicked) || (close_on_escape && escape_pressed)
        || close_button_clicked)
}

/// Whether the modal closes this frame: a backdrop click (if enabled), `Esc`
/// (if enabled) or the close button, all only while the modal is closable.
/// The close button is only shown on closable modals.
pub fn should_close(
    closable: bool,
    close_on_backdrop: bool,
    backdrop_clicked: bool,
    close_on_escape: bool,
    escape_pressed: bool,
    close_button_clicked: bool,
) -> (close: bool)
    ensures
        close == dismissed(
            closable,
            close_on_backdrop,
            backdrop_clicked,
            close_on_escape,
            escape_pressed,
            close_button_clicked,
        ),
{
    let mut close = false;
    if closable && close_on_backdrop && backdrop_clicked {
        close = true;
    }
    if closable && close_button_clicked {
        close = true;
    }
    if closable && close_on_escape && escape_pressed {
        close = true;
    }
    close
}

/// The focus to restore and the lifecycle after a shown frame that closes
/// the modal (`close`) or not.
pub open spec fn left(s: ModalFocusState, close: bool) -> (Option<Option<Id>>, ModalFocusState) {
    if close {
        (Some(s.prev_focus), idle_focus_state())
    } else {
        (None, s)
    }
}

/// End a frame in which the modal was shown. When it closes, the lifecycle
/// is forgotten at once and the focus to restore is returned; otherwise
/// nothing changes and `None` is returned.
pub fn leave_frame(state: &mut ModalFocusState, close: bool) -> (restore: Option<Option<Id>>)
    ensures
        (restore, *final(state)) == left(*old(state), close),
{
    if close {
        let prev = state.prev_focus;
        *state = ModalFocusState { was_open: false, prev_focus: None };
        Some(prev)
    } else {
        None
    }
}

/// A modal that is not closable cannot be dismissed by the user: backdrop
/// clicks and `Esc` are ignored whatever their settings.
pub proof fn non_closable_modal_stays_open(
    close_on_backdrop: bool,
    backdrop_clicked: bool,
    close_on_escape: bool,
    escape_pressed: bool,
    close_button_clicked: bool,
)
    ensures
        !dismissed(
            false,
            close_on_backdrop,
            backdrop_clicked,
            close_on_escape,
            escape_pressed,
            close_button_clicked,
        ),
{
}

/// Focus goes back where it was: a modal opened while `focused` had focus
/// keeps that record while it stays open (whatever has focus later), and
/// returns focus to `focused` when it closes, whether the user closes it in a
/// shown frame or the caller clears its flag. Either way the lifecycle is
/// reset, so the next opening records focus afresh.
pub proof fn closing_restores_focus_of_opening(
    focused: Option<Id>,
    later: Option<Id>,
    at_close: Option<Id>,
)
    ensures
        ({
            let opened = entered(idle_focus_state(), true, focused);
            let still = entered(opened.1, true, later);
            let by_user = left(still.1, true);
            let by_caller = entered(still.1, false, at_close);
            &&& opened.0 == (ModalEntry::Shown { just_opened: true })
            &&& still.0 == (ModalEntry::Shown { just_opened: false })
            &&& still.1 == opened.1
            &&& by_user.0 == Some(focused)
            &&& by_user.1 == idle_focus_state()
            &&& by_caller.0 == (ModalEntry::JustClosed { restore: focused })
            &&& by_caller.1 == idle_focus_state()
        }),
{
}

/// Each way of dismissing a closable modal works only when it is enabled:
/// with `Esc` dismissal off, pressing `Esc` changes nothing; with backdrop
/// dismissal off, clicking the backdrop changes nothing. An enabled `Esc`, an
/// enabled backdrop click or the close button each dismiss a closable modal,
/// and with none of them it stays open.
pub proof fn dismissal_follows_the_enabled_triggers(
    closable: bool,
    close_on_backdrop: bool,
    backdrop_clicked: bool,
    close_on_escape: bool,
    escape_pressed: bool,
    close_button_clicked: bool,
)
    ensures
        dismissed(closable, close_on_backdrop, backdrop_clicked, false, escape_pressed, close_button_clicked)
            == dismissed(closable, close_on_backdrop, backdrop_clicked, false, false, close_button_clicked),
        dismissed(closable, false, backdrop_clicked, close_on_escape, escape_pressed, close_button_clicked)
            == dismissed(closable, false, false, close_on_escape, escape_pressed, close_button_clicked),
        dismissed(true, close_on_backdrop, backdrop_clicked, true, true, close_button_clicked),
        dismissed(true, true, true, close_on_escape, escape_pressed, close_button_clicked),
        dismissed(true, close_on_backdrop, backdrop_clicked, close_on_escape, escape_pressed, true),
        !dismissed(closable, close_on_backdrop, false, close_on_escape, false, false),
        !dismissed(true, false, backdrop_clicked, false, escape_pressed, false),
{
}

} // verus!
