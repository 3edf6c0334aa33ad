//! Decision logic of the render loop.
//!
//! The loop itself — terminal setup, key polling, drawing, sleeping — is
//! outside work and lives with the embedding program. Everything it decides
//! per frame is here, verified: the two-step quit gesture, the frame budget,
//! the sleep remainder and the header line.

use crate::client_store::sat_sub;
use crate::format::format_project_header;
use crate::format::spec_header;
use vstd::prelude::*;

verus! {

/// A keypress, reduced to what the quit gesture reads.
#[derive(Clone, Copy, Debug, PartialEq, Eq, Structural)]
pub enum Key {
    /// A printable character.
    Char(char),
    /// The escape key.
    Esc,
    /// Any other key.
    Other,
}

/// What a keypress means for the quit gesture.
#[derive(Clone, Copy, Debug, PartialEq, Eq, Structural)]
pub enum QuitAction {
    /// Arm the confirmation state.
    RequestConfirm,
    /// Confirm and terminate the loop.
    Confirm,
    /// Disarm the confirmation state.
    Cancel,
}

/// The two-step quit gesture: `q` arms a confirmation, then `y` confirms
/// and `n` or escape disarms; everything else is ignored.
pub open spec fn spec_quit_action(confirming: bool, key: Key) -> Option<QuitAction> {
    match key {
        Key::Char(c) => if c == 'q' && !confirming {
            Some(QuitAction::RequestConfirm)
        } else if c == 'y' && confirming {
            Some(QuitAction::Confirm)
        } else if c == 'n' && confirming {
            Some(QuitAction::Cancel)
        } else {
            None
        },
        Key::Esc => if confirming {
            Some(QuitAction::Cancel)
        } else {
            None
        },
        Key::Other => None,
    }
}

/// Decide what a keypress means for the quit gesture, given whether a
/// confirmation is currently pending.
pub fn quit_action(confirming: bool, key: Key) -> (r: Option<QuitAction>)
    ensures
        r == spec_quit_action(confirming, key),
{
    match key {
        Key::Char(c) => {
            if c == 'q' && !confirming {
                Some(QuitAction::RequestConfirm)
            } else if c == 'y' && confirming {
                Some(QuitAction::Confirm)
            } else if c == 'n' && confirming {
                Some(QuitAction::Cancel)
            } else {
                None
            }
        },
        Key::Esc => {
            if confirming {
                Some(QuitAction::Cancel)
            } else {
                None
            }
        },
        Key::Other => None,
    }
}

/// Runtime configuration and quit-gesture state for the render loop.
///
/// The loop drains the store, takes a snapshot, derives a header and hands
/// both to a presenter on a fixed cadence; it terminates only on a
/// confirmed quit, never because every task reports a terminal status.
pub struct Runtime {
    fps: u64,
    quit_on_q: bool,
    project_label: Option<String>,
    confirm_quit: bool,
}

impl Runtime {
    /// Target frames per second for rendering.
    pub closed spec fn spec_fps(&self) -> u64 {
        self.fps
    }

    /// Whether the quit gesture is honored.
    pub closed spec fn spec_quit_on_q(&self) -> bool {
        self.quit_on_q
    }

    /// The optional project label shown in the header.
    pub closed spec fn spec_project_label(&self) -> Option<Seq<char>> {
        match self.project_label {
            Some(l) => Some(l@),
            None => None,
        }
    }

    /// Whether a quit confirmation is currently pending.
    pub closed spec fn spec_confirming(&self) -> bool {
        self.confirm_quit
    }

    /// Create a runtime with a target frames-per-second value.
    pub fn new(fps: u64) -> (r: Self)
        ensures
            r.spec_fps() == fps,
            r.spec_quit_on_q() == true,
            r.spec_project_label() is None,
            !r.spec_confirming(),
    {
        Runtime { fps, quit_on_q: true, project_label: None, confirm_quit: false }
    }

    /// Control whether pressing `q` exits the runtime loop.
    pub fn quit_on_q(self, enabled: bool) -> (r: Self)
        ensures
            r.spec_fps() == self.spec_fps(),
            r.spec_quit_on_q() == enabled,
            r.spec_project_label() == self.spec_project_label(),
            r.spec_confirming() == self.spec_confirming(),
    {
        Runtime { quit_on_q: enabled, ..self }
    }

    /// Set the project label displayed at the top of the UI.
    pub fn project_label(self, label: String) -> (r: Self)
        ensures
            r.spec_fps() == self.spec_fps(),
            r.spec_quit_on_q() == self.spec_quit_on_q(),
            r.spec_project_label() == Some(label@),
            r.spec_confirming() == self.spec_confirming(),
    {
        Runtime { project_label: Some(label), ..self }
    }

    /// Whether the loop should poll for the quit gesture at all.
    pub fn quit_enabled(&self) -> (r: bool)
        ensures
            r == self.spec_quit_on_q(),
    {
        self.quit_on_q
    }

    /// Whether a quit confirmation is pending, for the presenter to show.
    pub fn confirming(&self) -> (r: bool)
        ensures
            r == self.spec_confirming(),
    {
        self.confirm_quit
    }

    /// The frame budget in milliseconds: one second divided by the target
    /// frame rate, which is effectively at least one.
    pub fn frame_time_millis(&self) -> (r: u64)
        ensures
            r == 1000u64 / (if self.spec_fps() >= 1 {
                self.spec_fps()
            } else {
                1u64
            }),
    {
        let fps = if self.fps >= 1 {
            self.fps
        } else {
            1
        };
        1000 / fps
    }

    /// Feed one keypress to the quit gesture; the result says whether the
    /// loop must terminate. Arming and disarming only move the confirmation
    /// state; nothing else of the runtime changes.
    pub fn handle_key(&mut self, key: Key) -> (exit: bool)
        ensures
            final(self).spec_fps() == old(self).spec_fps(),
            final(self).spec_quit_on_q() == old(self).spec_quit_on_q(),
            final(self).spec_project_label() == old(self).spec_project_label(),
            match spec_quit_action(old(self).spec_confirming(), key) {
                Some(QuitAction::RequestConfirm) => final(self).spec_confirming() && !exit,
                Some(QuitAction::Cancel) => !final(self).spec_confirming() && !exit,
                Some(QuitAction::Confirm) => exit && final(self).spec_confirming() == old(
                    self,
                ).spec_confirming(),
                None => final(self).spec_confirming() == old(self).spec_confirming() && !exit,
            },
    {
        match quit_action(self.confirm_quit, key) {
            Some(QuitAction::RequestConfirm) => {
                self.confirm_quit = true;
                false
            },
            Some(QuitAction::Cancel) => {
                self.confirm_quit = false;
                false
            },
            Some(QuitAction::Confirm) => true,
            None => false,
        }
    }

    /// The header line for this frame: the project label (or `Project`) and
    /// the elapsed time since the loop started.
    pub fn header(&self, elapsed_ms: u64) -> (r: String)
        ensures
            r@ == spec_header(self.spec_project_label(), elapsed_ms),
    {
        match &self.project_label {
            Some(l) => format_project_header(Some(l.as_str()), elapsed_ms),
            None => format_project_header(None, elapsed_ms),
        }
    }
}

/// The milliseconds still left of a frame budget after `spent_ms` went by;
/// never negative.
pub fn remaining_budget_millis(frame_ms: u64, spent_ms: u64) -> (r: u64)
    ensures
        r == sat_sub(frame_ms, spent_ms),
{
    if frame_ms >= spent_ms {
        frame_ms - spent_ms
    } else {
        0
    }
}

} // verus!
