//! The window-level tour controller.
//!
//! The controller mediates between the four global user actions — start,
//! advance, retreat, skip — and the paginator and chrome. It owns the
//! transition between the "not started" and "in progress" presentation modes
//! and routes the paginator's boundary conditions into tour-specific policy:
//! falling off the upper end closes the window, falling off the lower end
//! returns to the welcome screen. The paginator itself stays domain-agnostic.

use vstd::prelude::*;

use crate::chrome::ButtonLabel;
use crate::chrome::Chrome;
use crate::paginator::Paginator;

verus! {

/// The two presentation modes of the tour. Every process start begins at
/// `NotStarted`; there is no terminal state, since termination is an external
/// quit action.
#[derive(Clone, Copy, Debug, PartialEq, Eq, Structural)]
pub enum TourMode {
    NotStarted,
    InProgress,
}

/// What the controller asks of the surrounding window/application shell
/// after handling a user action: nothing, closing the window (the tour is
/// complete), or terminating the process (the user skipped the tour).
#[derive(Clone, Copy, Debug, PartialEq, Eq, Structural)]
pub enum ShellRequest {
    Proceed,
    CloseWindow,
    Terminate,
}

/// The tour controller: the single owner of the paginator and the chrome.
/// External callers reach the core only through the four named operations.
pub struct TourController {
    pub mode: TourMode,
    pub paginator: Paginator,
    pub chrome: Chrome,
}

impl TourController {
    /// Well-formedness of the whole core. The paginator is well-formed and
    /// non-empty; while the tour is in progress, the chrome mirrors the
    /// paginator: the navigation controls are visible, the displayed title
    /// is the current page's title, and the primary button shows the finish
    /// label exactly on the last page. While the tour has not started, the
    /// welcome screen is visible and the cursor rests at the first page.
    pub open spec fn wf(self) -> bool {
        &&& self.paginator.wf()
        &&& self.paginator.len() > 0
        &&& (self.mode is InProgress ==> {
            &&& self.chrome.navigation_visible
            &&& self.chrome.title@ == self.paginator.current_title()
            &&& (self.chrome.label is Finish <==> self.paginator.at_last())
        })
        &&& (self.mode is NotStarted ==> {
            &&& !self.chrome.navigation_visible
            &&& self.paginator.current_index == 0
        })
    }

    /// The index the tour starts at: the first content page after the
    /// welcome page, or the welcome page itself when it is the only one.
    pub open spec fn first_content_index(self) -> int {
        if self.paginator.len() > 1 {
            1
        } else {
            0
        }
    }

    /// Builds the controller around a fully registered, non-empty page
    /// sequence with the cursor at the first page. Registering zero pages is
    /// a setup error that the caller must rule out before the tour exists.
    pub fn new(paginator: Paginator) -> (c: TourController)
        requires
            paginator.wf(),
            paginator.len() > 0,
            paginator.current_index == 0,
        ensures
            c.wf(),
            c.mode is NotStarted,
            c.paginator == paginator,
    {
        TourController { mode: TourMode::NotStarted, paginator, chrome: Chrome::new() }
    }

    /// Starts the tour: the mode becomes `InProgress`, the cursor moves to
    /// the first content page, and the chrome switches to the navigation
    /// controls, re-rendered from the paginator's current snapshot.
    pub fn start(&mut self)
        requires
            old(self).wf(),
            old(self).mode is NotStarted,
        ensures
            final(self).wf(),
            final(self).mode is InProgress,
            final(self).paginator.pages@ == old(self).paginator.pages@,
            final(self).paginator.current_index == old(self).first_content_index(),
    {
        self.mode = TourMode::InProgress;
        if self.paginator.pages.len() > 1 {
            let moved = self.paginator.jump_to(1);
            match moved {
                Some(n) => self.chrome.on_position_changed(n),
                None => (),
            }
        } else {
            let title = self.paginator.current().title.clone();
            let n = crate::paginator::PositionChanged { index: 0, title, is_last: true };
            self.chrome.on_position_changed(n);
        }
        self.chrome.show_navigation_ui();
    }

    /// Advances the tour one page. At the upper bound the paginator is left
    /// untouched and the shell is asked to close the window: the tour is
    /// complete. Otherwise the chrome re-renders for the new position and
    /// the shell has nothing to do.
    pub fn advance(&mut self) -> (r: ShellRequest)
        requires
            old(self).wf(),
            old(self).mode is InProgress,
        ensures
            final(self).wf(),
            final(self).mode is InProgress,
            final(self).paginator.pages@ == old(self).paginator.pages@,
            old(self).paginator.can_advance() ==> {
                &&& final(self).paginator.current_index == old(self).paginator.current_index + 1
                &&& r == ShellRequest::Proceed
            },
            !old(self).paginator.can_advance() ==> {
                &&& *final(self) == *old(self)
                &&& r == ShellRequest::CloseWindow
            },
    {
        match self.paginator.next() {
            Ok(n) => {
                self.chrome.on_position_changed(n);
                ShellRequest::Proceed
            },
            Err(_) => ShellRequest::CloseWindow,
        }
    }

    /// Retreats the tour one page. At the lower bound the paginator is left
    /// untouched, the chrome returns to the welcome screen and the mode
    /// resets to `NotStarted`: leaving through the lower end exits the tour,
    /// it is not an error. Otherwise the chrome re-renders for the new
    /// position. The shell never has anything to do here.
    pub fn retreat(&mut self) -> (r: ShellRequest)
        requires
            old(self).wf(),
            old(self).mode is InProgress,
        ensures
            final(self).wf(),
            final(self).paginator.pages@ == old(self).paginator.pages@,
            r == ShellRequest::Proceed,
            old(self).paginator.can_retreat() ==> {
                &&& final(self).mode is InProgress
                &&& final(self).paginator.current_index == old(self).paginator.current_index - 1
            },
            !old(self).paginator.can_retreat() ==> {
                &&& final(self).mode is NotStarted
                &&& final(self).paginator == old(self).paginator
                &&& final(self).chrome.welcome_visible()
            },
    {
        match self.paginator.previous() {
            Ok(n) => {
                self.chrome.on_position_changed(n);
            },
            Err(_) => {
                self.chrome.hide_navigation_ui();
                self.mode = TourMode::NotStarted;
            },
        }
        ShellRequest::Proceed
    }

    /// Skips (or quits) the tour: the shell must terminate the process, in
    /// any mode. The core's state is irrelevant afterwards.
    pub fn skip(&self) -> (r: ShellRequest)
        ensures
            r == ShellRequest::Terminate,
    {
        ShellRequest::Terminate
    }
}

/// Law: immediately after any operation that leaves the tour in progress,
/// the chrome's displayed title equals the current page's title — there is
/// no stale render — and the primary button shows the finish label if and
/// only if the cursor sits on the last page.
pub proof fn lemma_chrome_mirrors_paginator(c: TourController)
    requires
        c.wf(),
        c.mode is InProgress,
    ensures
        c.chrome.title@ == c.paginator.pages@[c.paginator.current_index as int].title@,
        c.chrome.label == ButtonLabel::Finish <==> c.paginator.current_index as int == c.paginator.len() - 1,
{
}

} // verus!
