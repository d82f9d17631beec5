//! Navigation logic: stack of visited screens, the modal window to show and the
//! side panel state.

use vstd::prelude::*;
use crate::modal::{Modal, ModalPosition, shown_title};
use crate::screens::{ScreenId, ScreenStack, popped, pushed};

verus! {

/// Logic of navigation at ui, stores screen identifiers stack, showing modal and side panel state.
pub struct Navigator {
    /// Screen identifiers in navigation stack.
    screen_stack: ScreenStack,
    /// Indicator if side panel is open.
    side_panel_open: bool,
    /// Modal window to show.
    modal: Option<Modal>,
}

/// `m` is the exit confirmation modal with title `title`.
pub open spec fn is_exit_modal(m: Modal, title: Seq<char>) -> bool {
    &&& m.id@ == Navigator::EXIT_MODAL@
    &&& m.position == ModalPosition::Center
    &&& m.closeable
    &&& m.first_draw
    &&& m.title matches Some(t) && t@ == shown_title(title)
}

impl Default for Navigator {
    /// Empty navigation without modal and with closed side panel.
    fn default() -> (n: Self)
        ensures
            n.stack() == Seq::<ScreenId>::empty(),
            !n.side_panel(),
            n.shown_modal() is None,
    {
        Navigator { screen_stack: ScreenStack::new(), side_panel_open: false, modal: None }
    }
}

impl Navigator {
    /// Identifier for exit [`Modal`].
    pub const EXIT_MODAL: &'static str = "exit";

    /// Identifiers in the navigation stack, from the bottom.
    pub closed spec fn stack(&self) -> Seq<ScreenId> {
        self.screen_stack.stack()
    }

    /// Side panel state.
    pub closed spec fn side_panel(&self) -> bool {
        self.side_panel_open
    }

    /// Modal window to show.
    pub closed spec fn shown_modal(&self) -> Option<Modal> {
        self.modal
    }

    /// Initialize navigation from provided [`ScreenId`].
    pub fn init(&mut self, from: ScreenId)
        ensures
            final(self).stack() == seq![from],
            final(self).side_panel() == old(self).side_panel(),
            final(self).shown_modal() == old(self).shown_modal(),
    {
        self.screen_stack.reset(from);
    }

    /// Check if navigation has a current screen: the stack is not empty.
    pub fn has_current(&self) -> (r: bool)
        ensures
            r == (self.stack().len() > 0),
    {
        self.screen_stack.last().is_some()
    }

    /// Check if provided [`ScreenId`] is current: the top of the stack.
    pub fn is_current(&self, id: &ScreenId) -> (r: bool)
        requires
            self.stack().len() > 0,
        ensures
            r == (self.stack().last() == *id),
    {
        match self.screen_stack.last() {
            Some(last) => last == *id,
            None => false,
        }
    }

    /// Navigate to screen with provided [`ScreenId`]: it becomes the top of the stack.
    pub fn to(&mut self, id: ScreenId)
        ensures
            final(self).stack() == pushed(old(self).stack(), id),
            final(self).side_panel() == old(self).side_panel(),
            final(self).shown_modal() == old(self).shown_modal(),
    {
        self.screen_stack.push(id);
    }

    /// Go back at navigation stack, close showing modals first: a shown modal is
    /// removed when it can be closed, and navigation stays; without a modal the current
    /// screen is removed, or, when it is the only one, the exit confirmation modal
    /// with title `exit_title` is set.
    pub fn back(&mut self, exit_title: String)
        ensures
            final(self).side_panel() == old(self).side_panel(),
            match old(self).shown_modal() {
                Some(m) => {
                    &&& final(self).stack() == old(self).stack()
                    &&& if m.closeable {
                        final(self).shown_modal() is None
                    } else {
                        final(self).shown_modal() == old(self).shown_modal()
                    }
                },
                None => if old(self).stack().len() > 1 {
                    &&& final(self).shown_modal() is None
                    &&& final(self).stack() == popped(old(self).stack())
                } else {
                    &&& final(self).stack() == old(self).stack()
                    &&& final(self).shown_modal() matches Some(e) && is_exit_modal(
                        e,
                        exit_title@,
                    )
                },
            },
    {
        match &self.modal {
            Some(m) => {
                if m.is_closeable() {
                    self.modal = None;
                }
                return ;
            },
            None => {},
        }
        if self.screen_stack.has_several() {
            self.screen_stack.pop_last();
        } else {
            self.show_exit_modal(exit_title);
        }
    }

    /// Set exit confirmation [`Modal`] with title `title`.
    pub fn show_exit_modal(&mut self, title: String)
        ensures
            final(self).shown_modal() matches Some(e) && is_exit_modal(e, title@),
            final(self).stack() == old(self).stack(),
            final(self).side_panel() == old(self).side_panel(),
    {
        let m = Modal::new(Self::EXIT_MODAL).title(title);
        self.modal = Some(m);
    }

    /// Set [`Modal`] to show.
    pub fn show_modal(&mut self, modal: Modal)
        ensures
            final(self).shown_modal() == Some(modal),
            final(self).stack() == old(self).stack(),
            final(self).side_panel() == old(self).side_panel(),
    {
        self.modal = Some(modal);
    }

    /// Identifier of the shown [`Modal`], if any.
    pub fn is_modal_open(&self) -> (r: Option<&'static str>)
        ensures
            r == (match self.shown_modal() {
                Some(m) => Some(m.id),
                None => None::<&'static str>,
            }),
    {
        match &self.modal {
            Some(m) => Some(m.id),
            None => None,
        }
    }

    /// Change state of side panel to opposite.
    pub fn toggle_side_panel(&mut self)
        ensures
            final(self).side_panel() == !old(self).side_panel(),
            final(self).stack() == old(self).stack(),
            final(self).shown_modal() == old(self).shown_modal(),
    {
        self.side_panel_open = !self.side_panel_open;
    }

    /// Check if side panel is open.
    pub fn is_side_panel_open(&self) -> (r: bool)
        ensures
            r == self.side_panel(),
    {
        self.side_panel_open
    }
}

/// The exit confirmation set by going back from the only screen can be closed: going
/// back once more removes it and keeps the screen.
pub proof fn law_exit_modal_closes_on_back(m: Modal, title: Seq<char>)
    requires
        is_exit_modal(m, title),
    ensures
        m.closeable,
        m.id@ == Navigator::EXIT_MODAL@,
{
}

} // verus!
