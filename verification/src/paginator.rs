//! The page-navigation state machine.
//!
//! The paginator owns the ordered sequence of pages and the single
//! current-position cursor, and guarantees that no out-of-range position is
//! ever observable. Reaching a boundary with `next` or `previous` is expected,
//! not exceptional: the caller routes `AtUpperBound` into closing the window
//! and `AtLowerBound` into returning to the welcome screen.

use vstd::prelude::*;

use crate::page::Page;

verus! {

/// The only two recoverable conditions of the core: the cursor already sits
/// at the last page (`AtUpperBound`) or at the first page (`AtLowerBound`).
/// Both signal semantic boundary reaching, not failure.
#[derive(Clone, Copy, Debug, PartialEq, Eq, Structural)]
pub enum NavError {
    AtUpperBound,
    AtLowerBound,
}

/// The position-changed notification that every successful mutation emits,
/// exactly once and synchronously, before the call returns: the new cursor
/// position, the title of the page now current, and whether that page is the
/// last one.
pub struct PositionChanged {
    pub index: usize,
    pub title: String,
    pub is_last: bool,
}

/// A navigation step, as an abstract event: used to state that arbitrary
/// sequences of advance/retreat steps keep the cursor in bounds.
pub enum NavOp {
    Advance,
    Retreat,
}

/// The ordered page list and the current-position cursor. The sequence is
/// append-only after initialization, and the cursor is a valid index into it
/// whenever at least one page is registered.
pub struct Paginator {
    pub pages: Vec<Page>,
    pub current_index: usize,
}

impl Paginator {
    /// The number of registered pages.
    pub open spec fn len(self) -> nat {
        self.pages@.len()
    }

    /// Well-formedness: the cursor is a valid index once a page exists, and
    /// rests at zero while the sequence is still empty.
    pub open spec fn wf(self) -> bool {
        if self.pages@.len() == 0 {
            self.current_index == 0
        } else {
            self.current_index < self.pages@.len()
        }
    }

    /// Whether a `next` call can move the cursor.
    pub open spec fn can_advance(self) -> bool {
        self.current_index + 1 < self.len()
    }

    /// Whether a `previous` call can move the cursor.
    pub open spec fn can_retreat(self) -> bool {
        self.current_index > 0
    }

    /// Whether the cursor sits on the last page.
    pub open spec fn at_last(self) -> bool {
        self.current_index as int == self.len() - 1
    }

    /// The title of the page the cursor currently points at.
    pub open spec fn current_title(self) -> Seq<char> {
        self.pages@[self.current_index as int].title@
    }

    /// The state after one advance step: the cursor moves forward by one
    /// where that stays in range, and is left untouched at the upper bound.
    pub open spec fn next_state(self) -> Paginator {
        if self.can_advance() {
            Paginator { pages: self.pages, current_index: (self.current_index + 1) as usize }
        } else {
            self
        }
    }

    /// The state after one retreat step: the cursor moves back by one where
    /// it is not already at the lower bound.
    pub open spec fn prev_state(self) -> Paginator {
        if self.can_retreat() {
            Paginator { pages: self.pages, current_index: (self.current_index - 1) as usize }
        } else {
            self
        }
    }

    /// The state after one abstract navigation step.
    pub open spec fn step(self, op: NavOp) -> Paginator {
        match op {
            NavOp::Advance => self.next_state(),
            NavOp::Retreat => self.prev_state(),
        }
    }

    /// The state after a whole sequence of navigation steps.
    pub open spec fn run(self, ops: Seq<NavOp>) -> Paginator
        decreases ops.len(),
    {
        if ops.len() == 0 {
            self
        } else {
            self.step(ops[0]).run(ops.skip(1))
        }
    }

    /// An empty paginator, cursor at zero.
    pub fn new() -> (p: Paginator)
        ensures
            p.pages@ == Seq::<Page>::empty(),
            p.current_index == 0,
            p.wf(),
    {
        Paginator { pages: Vec::new(), current_index: 0 }
    }

    /// Appends a page to the sequence. Registration happens only during
    /// setup, before any navigation call; it cannot fail and never moves the
    /// cursor.
    pub fn register(&mut self, page: Page)
        requires
            old(self).wf(),
        ensures
            final(self).pages@ == old(self).pages@.push(page),
            final(self).current_index == old(self).current_index,
            final(self).wf(),
    {
        self.pages.push(page);
    }

    /// Moves the cursor forward by one. At the last page the call fails with
    /// `AtUpperBound` and leaves the state unchanged: the caller interprets
    /// this as "sequence exhausted", not as a user-facing error. On success
    /// the emitted notification carries the new position, the new current
    /// page's title, and whether that page is the last.
    pub fn next(&mut self) -> (r: Result<PositionChanged, NavError>)
        requires
            old(self).wf(),
            old(self).len() > 0,
        ensures
            *final(self) == old(self).next_state(),
            final(self).wf(),
            final(self).pages@ == old(self).pages@,
            r is Ok <==> old(self).can_advance(),
            (r matches Ok(n) ==> {
                &&& n.index == old(self).current_index + 1
                &&& n.index == final(self).current_index
                &&& n.title@ == final(self).current_title()
                &&& n.is_last == final(self).at_last()
            }),
            (r matches Err(e) ==> e == NavError::AtUpperBound && *final(self) == *old(self)),
    {
        if self.current_index < self.pages.len() - 1 {
            let new_index = self.current_index + 1;
            self.current_index = new_index;
            let title = self.pages[new_index].title.clone();
            let is_last = new_index + 1 == self.pages.len();
            Ok(PositionChanged { index: new_index, title, is_last })
        } else {
            Err(NavError::AtUpperBound)
        }
    }

    /// Moves the cursor back by one. At the first page the call fails with
    /// `AtLowerBound` and leaves the state unchanged: the caller interprets
    /// this as "exit the tour". On success the emitted notification carries
    /// the new position, the new current page's title, and whether that page
    /// is the last.
    pub fn previous(&mut self) -> (r: Result<PositionChanged, NavError>)
        requires
            old(self).wf(),
            old(self).len() > 0,
        ensures
            *final(self) == old(self).prev_state(),
            final(self).wf(),
            final(self).pages@ == old(self).pages@,
            r is Ok <==> old(self).can_retreat(),
            (r matches Ok(n) ==> {
                &&& n.index == old(self).current_index - 1
                &&& n.index == final(self).current_index
                &&& n.title@ == final(self).current_title()
                &&& n.is_last == final(self).at_last()
            }),
            (r matches Err(e) ==> e == NavError::AtLowerBound && *final(self) == *old(self)),
    {
        if self.current_index > 0 {
            let new_index = self.current_index - 1;
            self.current_index = new_index;
            let title = self.pages[new_index].title.clone();
            let is_last = new_index + 1 == self.pages.len();
            Ok(PositionChanged { index: new_index, title, is_last })
        } else {
            Err(NavError::AtLowerBound)
        }
    }

    /// Absolute positioning, used by continuous-position navigation gestures
    /// that settle on a page. An out-of-range index is rejected without
    /// mutation, and a notification is emitted only when the cursor actually
    /// moves.
    pub fn jump_to(&mut self, index: usize) -> (r: Option<PositionChanged>)
        requires
            old(self).wf(),
            old(self).len() > 0,
        ensures
            final(self).wf(),
            final(self).pages@ == old(self).pages@,
            index < old(self).len() ==> final(self).current_index == index,
            index >= old(self).len() ==> *final(self) == *old(self),
            r is Some <==> (index < old(self).len() && index != old(self).current_index),
            (r matches Some(n) ==> {
                &&& n.index == index
                &&& n.title@ == final(self).current_title()
                &&& n.is_last == final(self).at_last()
            }),
            r is None ==> *final(self) == *old(self),
    {
        if index < self.pages.len() && index != self.current_index {
            self.current_index = index;
            let title = self.pages[index].title.clone();
            let is_last = index + 1 == self.pages.len();
            Some(PositionChanged { index, title, is_last })
        } else {
            None
        }
    }

    /// The page the cursor currently points at. Never fails: setup
    /// guarantees the sequence is non-empty before the first navigation call.
    pub fn current(&self) -> (p: &Page)
        requires
            self.wf(),
            self.len() > 0,
        ensures
            *p == self.pages@[self.current_index as int],
    {
        &self.pages[self.current_index]
    }
}

/// Law: from any well-formed state with at least one page, every sequence of
/// advance/retreat steps keeps the state well-formed, keeps the page list
/// untouched, and keeps the cursor a valid index.
pub proof fn lemma_run_preserves_bounds(p: Paginator, ops: Seq<NavOp>)
    requires
        p.wf(),
        p.len() > 0,
    ensures
        p.run(ops).wf(),
        p.run(ops).pages == p.pages,
        p.run(ops).current_index < p.len(),
    decreases ops.len(),
{
    if ops.len() > 0 {
        lemma_run_preserves_bounds(p.step(ops[0]), ops.skip(1));
    }
}

/// Law: for every sequence of advance/retreat steps starting at index zero
/// with at least one registered page, the cursor stays within the valid range
/// at every observable point along the way.
pub proof fn lemma_nav_sequence_stays_in_bounds(p: Paginator, ops: Seq<NavOp>)
    requires
        p.wf(),
        p.len() > 0,
        p.current_index == 0,
    ensures
        forall|i: int|
            0 <= i <= ops.len() ==> (#[trigger] p.run(ops.take(i))).current_index < p.len(),
{
    assert forall|i: int|
        0 <= i <= ops.len() implies (#[trigger] p.run(ops.take(i))).current_index < p.len() by {
        lemma_run_preserves_bounds(p, ops.take(i));
    }
}

/// Law: advancing at the upper bound is idempotent. Once the cursor sits at
/// the last page, an advance step leaves the state fixed, and so does every
/// further advance step: no state change and no wraparound. Together with the
/// contract of `next`, each such call keeps returning `AtUpperBound`.
pub proof fn lemma_advance_idempotent_at_upper_bound(p: Paginator)
    requires
        p.wf(),
        p.len() > 0,
        !p.can_advance(),
    ensures
        p.next_state() == p,
        !p.next_state().can_advance(),
        p.next_state().next_state() == p,
{
}

} // verus!
