//! The immutable content units of the tour.
//!
//! A page exposes a display title and its renderable content. The welcome
//! screen is a distinguished variant; every other page shows an illustration
//! together with a heading and a body text. Pages are created once during
//! startup registration and never change afterwards.

use vstd::prelude::*;

verus! {

/// What a page renders: either the welcome screen, or an illustrated
/// informational page identified by the resource of its image.
pub enum PageContent {
    Welcome,
    Illustrated { resource: String, head: String, body: String },
}

/// An immutable content unit of the tour: a display title plus content.
/// Identity is the order of registration in the paginator.
pub struct Page {
    pub title: String,
    pub content: PageContent,
}

impl Page {
    /// Whether this is the distinguished welcome page.
    pub open spec fn is_welcome(self) -> bool {
        self.content is Welcome
    }

    /// Builds the welcome page.
    pub fn welcome(title: String) -> (p: Page)
        ensures
            p.title@ == title@,
            p.is_welcome(),
    {
        Page { title, content: PageContent::Welcome }
    }

    /// Builds an illustrated informational page.
    pub fn illustrated(resource: String, title: String, head: String, body: String) -> (p: Page)
        ensures
            p.title@ == title@,
            !p.is_welcome(),
            (p.content matches PageContent::Illustrated { resource: r, head: h, body: b }
                && r@ == resource@ && h@ == head@ && b@ == body@),
    {
        Page { title, content: PageContent::Illustrated { resource, head, body } }
    }
}

} // verus!
