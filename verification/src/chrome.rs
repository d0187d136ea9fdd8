//! The navigation chrome: title bar and primary action button.
//!
//! The chrome is a pure function of paginator state and never owns navigation
//! logic itself. It re-renders on every position-changed notification,
//! including the first, and toggles between the paged navigation controls and
//! the welcome screen's single call-to-action row; the two are mutually
//! exclusive at all times.

use vstd::prelude::*;

use crate::paginator::PositionChanged;

verus! {

/// The label of the primary action button: `Continue` everywhere but on the
/// last page, where it becomes `Finish`.
#[derive(Clone, Copy, Debug, PartialEq, Eq, Structural)]
pub enum ButtonLabel {
    Continue,
    Finish,
}

/// The presentation state the chrome renders: the displayed title, the
/// primary button's label, and whether the paged navigation controls (rather
/// than the welcome screen) are visible. The chrome keeps no information of
/// its own: it can be recreated from the paginator's current snapshot.
pub struct Chrome {
    pub title: String,
    pub label: ButtonLabel,
    pub navigation_visible: bool,
}

impl Chrome {
    /// Whether the welcome screen is visible; always the opposite of the
    /// paged navigation controls.
    pub open spec fn welcome_visible(self) -> bool {
        !self.navigation_visible
    }

    /// A fresh chrome, showing the welcome screen with an empty title and
    /// the continue label.
    pub fn new() -> (c: Chrome)
        ensures
            c.title@ == Seq::<char>::empty(),
            c.label == ButtonLabel::Continue,
            !c.navigation_visible,
    {
        Chrome { title: String::new(), label: ButtonLabel::Continue, navigation_visible: false }
    }

    /// Re-renders from a position-changed notification: the displayed title
    /// becomes the current page's title, and the primary button shows the
    /// finish label exactly when the current page is the last. This is the
    /// only place label text is decided.
    pub fn on_position_changed(&mut self, n: PositionChanged)
        ensures
            final(self).title@ == n.title@,
            final(self).label == (if n.is_last {
                ButtonLabel::Finish
            } else {
                ButtonLabel::Continue
            }),
            final(self).navigation_visible == old(self).navigation_visible,
    {
        self.title = n.title;
        self.label = if n.is_last {
            ButtonLabel::Finish
        } else {
            ButtonLabel::Continue
        };
    }

    /// Shows the paged navigation controls and hides the welcome screen.
    pub fn show_navigation_ui(&mut self)
        ensures
            final(self).navigation_visible,
            final(self).title@ == old(self).title@,
            final(self).label == old(self).label,
    {
        self.navigation_visible = true;
    }

    /// Shows the welcome screen and hides the paged navigation controls.
    pub fn hide_navigation_ui(&mut self)
        ensures
            !final(self).navigation_visible,
            final(self).title@ == old(self).title@,
            final(self).label == old(self).label,
    {
        self.navigation_visible = false;
    }
}

} // verus!
