//! Modal window state: the modal that is shown, its position, title and flags.

use vstd::prelude::*;
use crate::text::{same_text, to_uppercase, uppercase};

verus! {

/// Position of [`Modal`] on the screen.
#[derive(PartialEq, Eq, Structural, Clone, Copy)]
pub enum ModalPosition {
    CenterTop,
    Center,
}

/// Modal window description.
pub struct Modal {
    /// Identifier for modal.
    pub id: &'static str,
    /// Position on the screen.
    pub position: ModalPosition,
    /// Flag to check if modal can be closed by keys.
    pub closeable: bool,
    /// Title text.
    pub title: Option<String>,
    /// Flag to check first content render.
    pub first_draw: bool,
}

/// Global [`Modal`] state.
pub struct ModalState {
    /// Opened [`Modal`].
    pub modal: Option<Modal>,
}

impl Default for ModalState {
    /// State with no modal shown.
    fn default() -> (s: Self)
        ensures
            s.modal is None,
    {
        ModalState { modal: None }
    }
}

impl ModalState {
    /// Identifier of the shown modal, if any.
    pub open spec fn opened_id(self) -> Option<&'static str> {
        match self.modal {
            Some(m) => Some(m.id),
            None => None,
        }
    }

    /// State after going back: a shown modal is removed when it can be closed.
    pub open spec fn after_back(self) -> ModalState {
        match self.modal {
            Some(m) => if m.closeable {
                ModalState { modal: None }
            } else {
                self
            },
            None => self,
        }
    }

    /// Check if an opened modal has one of the identifiers a content container draws.
    pub fn is_opened_in(&self, ids: &Vec<&'static str>) -> (r: bool)
        ensures
            r == (self.modal matches Some(m) && exists|i: int|
                0 <= i < ids@.len() && (#[trigger] ids@[i])@ == m.id@),
    {
        match &self.modal {
            None => false,
            Some(m) => {
                let mut i: usize = 0;
                while i < ids.len()
                    invariant
                        i <= ids@.len(),
                        self.modal == Some(*m),
                        forall|k: int| 0 <= k < i ==> (#[trigger] ids@[k])@ != m.id@,
                    decreases ids@.len() - i,
                {
                    if same_text(ids[i], m.id) {
                        assert((ids@[i as int])@ == m.id@);
                        return true;
                    }
                    i = i + 1;
                }
                false
            },
        }
    }
}

/// Title text as it is shown: upper case.
pub open spec fn shown_title(title: Seq<char>) -> Seq<char> {
    uppercase(title)
}

impl Modal {
    /// Create closeable [`Modal`] with center position.
    pub fn new(id: &'static str) -> (m: Self)
        ensures
            m.id == id,
            m.position == ModalPosition::Center,
            m.closeable,
            m.title is None,
            m.first_draw,
    {
        Modal { id, position: ModalPosition::Center, closeable: true, title: None, first_draw: true }
    }

    /// Setup position of [`Modal`] on the screen.
    pub fn position(self, position: ModalPosition) -> (m: Self)
        ensures
            m.position == position,
            m.id == self.id,
            m.closeable == self.closeable,
            m.title == self.title,
            m.first_draw == self.first_draw,
    {
        Modal { position, ..self }
    }

    /// Change position of the opened [`Modal`].
    pub fn change_position(state: &mut ModalState, position: ModalPosition)
        requires
            old(state).modal is Some,
        ensures
            final(state).modal matches Some(m) && m.position == position && m.id == old(
                state,
            ).modal->0.id && m.closeable == old(state).modal->0.closeable && m.title == old(
                state,
            ).modal->0.title && m.first_draw == old(state).modal->0.first_draw,
    {
        let m = state.modal.take().unwrap();
        state.modal = Some(m.position(position));
    }

    /// Close [`Modal`] by clearing its state.
    pub fn close(state: &mut ModalState)
        ensures
            final(state).modal is None,
    {
        state.modal = None;
    }

    /// Setup possibility to close [`Modal`].
    pub fn closeable(self, closeable: bool) -> (m: Self)
        ensures
            m.closeable == closeable,
            m.id == self.id,
            m.position == self.position,
            m.title == self.title,
            m.first_draw == self.first_draw,
    {
        Modal { closeable, ..self }
    }

    /// Disable possibility to close [`Modal`].
    pub fn disable_closing(&mut self)
        ensures
            !final(self).closeable,
            final(self).id == old(self).id,
            final(self).position == old(self).position,
            final(self).title == old(self).title,
            final(self).first_draw == old(self).first_draw,
    {
        self.closeable = false;
    }

    /// Enable possibility to close [`Modal`].
    pub fn enable_closing(&mut self)
        ensures
            final(self).closeable,
            final(self).id == old(self).id,
            final(self).position == old(self).position,
            final(self).title == old(self).title,
            final(self).first_draw == old(self).first_draw,
    {
        self.closeable = true;
    }

    /// Disable possibility to close the shown [`Modal`].
    pub fn disable_shown_closing(state: &mut ModalState)
        ensures
            match old(state).modal {
                Some(m) => final(state).modal matches Some(n) && !n.closeable && n.id == m.id
                    && n.position == m.position && n.title == m.title && n.first_draw
                    == m.first_draw,
                None => final(state).modal is None,
            },
    {
        match state.modal.take() {
            Some(m) => {
                state.modal = Some(m.closeable(false));
            },
            None => {},
        }
    }

    /// Enable possibility to close the shown [`Modal`].
    pub fn enable_shown_closing(state: &mut ModalState)
        ensures
            match old(state).modal {
                Some(m) => final(state).modal matches Some(n) && n.closeable && n.id == m.id
                    && n.position == m.position && n.title == m.title && n.first_draw
                    == m.first_draw,
                None => final(state).modal is None,
            },
    {
        match state.modal.take() {
            Some(m) => {
                state.modal = Some(m.closeable(true));
            },
            None => {},
        }
    }

    /// Check if [`Modal`] is closeable.
    pub fn is_closeable(&self) -> (r: bool)
        ensures
            r == self.closeable,
    {
        self.closeable
    }

    /// Set title text on [`Modal`] creation, shown in upper case.
    pub fn title(self, title: String) -> (m: Self)
        ensures
            m.title matches Some(t) && t@ == shown_title(title@),
            m.id == self.id,
            m.position == self.position,
            m.closeable == self.closeable,
            m.first_draw == self.first_draw,
    {
        let t = to_uppercase(title.as_str());
        Modal { title: Some(t), ..self }
    }

    /// Set [`Modal`] instance into state to show at ui.
    pub fn show(self, state: &mut ModalState)
        ensures
            final(state).modal == Some(self),
    {
        state.modal = Some(self);
    }

    /// Remove the shown [`Modal`] from [`ModalState`] if it can be closed.
    /// Return `false` if a modal was shown before the call.
    pub fn on_back(state: &mut ModalState) -> (r: bool)
        ensures
            r == old(state).modal is None,
            *final(state) == old(state).after_back(),
    {
        match &state.modal {
            None => true,
            Some(m) => {
                if m.closeable {
                    state.modal = None;
                }
                false
            },
        }
    }

    /// Return identifier of opened [`Modal`].
    pub fn opened(state: &ModalState) -> (r: Option<&'static str>)
        ensures
            r == state.opened_id(),
    {
        match &state.modal {
            Some(m) => Some(m.id),
            None => None,
        }
    }

    /// Check if [`Modal`] is opened and can be closed.
    pub fn opened_closeable(state: &ModalState) -> (r: bool)
        ensures
            r == (state.modal matches Some(m) && m.closeable),
    {
        match &state.modal {
            Some(m) => m.closeable,
            None => false,
        }
    }

    /// Set title text for current opened [`Modal`].
    pub fn set_title(state: &mut ModalState, title: String)
        ensures
            match old(state).modal {
                Some(m) => final(state).modal matches Some(n) && n.title matches Some(t) && t@
                    == shown_title(title@) && n.id == m.id && n.position == m.position
                    && n.closeable == m.closeable && n.first_draw == m.first_draw,
                None => final(state).modal is None,
            },
    {
        match state.modal.take() {
            Some(m) => {
                state.modal = Some(m.title(title));
            },
            None => {},
        }
    }

    /// Check for first [`Modal`] content rendering.
    pub fn first_draw(state: &ModalState) -> (r: bool)
        ensures
            r == (state.modal matches Some(m) && m.first_draw),
    {
        match &state.modal {
            Some(m) => m.first_draw,
            None => false,
        }
    }

    /// Mark the opened [`Modal`] content as drawn.
    pub fn finish_first_draw(state: &mut ModalState)
        ensures
            match old(state).modal {
                Some(m) => final(state).modal matches Some(n) && !n.first_draw && n.id == m.id
                    && n.position == m.position && n.closeable == m.closeable && n.title
                    == m.title,
                None => final(state).modal is None,
            },
    {
        match state.modal.take() {
            Some(m) => {
                state.modal = Some(Modal { first_draw: false, ..m });
            },
            None => {},
        }
    }
}

/// A shown modal is the opened one.
pub proof fn law_shown_is_opened(m: Modal)
    ensures
        (ModalState { modal: Some(m) }).opened_id() == Some(m.id),
{
}

/// Going back from a shown modal that can be closed closes it, and going back once more
/// finds no modal.
pub proof fn law_back_closes_closeable(m: Modal)
    requires
        m.closeable,
    ensures
        (ModalState { modal: Some(m) }).after_back().modal is None,
        (ModalState { modal: Some(m) }).after_back().after_back().modal is None,
{
}

/// Going back leaves a modal whose closing is disabled shown, however often it is done.
pub proof fn law_back_keeps_locked(m: Modal)
    requires
        !m.closeable,
    ensures
        (ModalState { modal: Some(m) }).after_back() == (ModalState { modal: Some(m) }),
        (ModalState { modal: Some(m) }).after_back().after_back() == (ModalState {
            modal: Some(m),
        }),
{
}

/// Change of whether a modal can be closed, as made by [`Modal::closeable`],
/// [`Modal::disable_closing`] and [`Modal::enable_closing`].
pub enum CloseChange {
    /// Change to the value.
    To(bool),
    /// Disable closing.
    Disable,
    /// Enable closing.
    Enable,
}

/// Modal after a change of whether it can be closed: only that flag changes.
pub open spec fn after_close_change(m: Modal, c: CloseChange) -> Modal {
    let closeable = match c {
        CloseChange::To(b) => b,
        CloseChange::Disable => false,
        CloseChange::Enable => true,
    };
    Modal { closeable, ..m }
}

/// Modal after changes in order.
pub open spec fn after_close_changes(m: Modal, cs: Seq<CloseChange>) -> Modal
    decreases cs.len(),
{
    if cs.len() == 0 {
        m
    } else {
        after_close_change(after_close_changes(m, cs.drop_last()), cs.last())
    }
}

/// A modal can be closed as the last change of it says: the value set, `false` after
/// disabling, `true` after enabling; a new modal (as [`Modal::new`] makes it), with no
/// change, can be closed. The
/// changes touch nothing else of the modal.
pub proof fn law_closeable_follows_last_change(m: Modal, cs: Seq<CloseChange>)
    requires
        m.closeable,
    ensures
        after_close_changes(m, cs).closeable == (if cs.len() == 0 {
            true
        } else {
            match cs.last() {
                CloseChange::To(b) => b,
                CloseChange::Disable => false,
                CloseChange::Enable => true,
            }
        }),
        after_close_changes(m, cs).id == m.id,
        after_close_changes(m, cs).position == m.position,
        after_close_changes(m, cs).title == m.title,
        after_close_changes(m, cs).first_draw == m.first_draw,
    decreases cs.len(),
{
    if cs.len() > 0 {
        law_closeable_follows_last_change(m, cs.drop_last());
    }
}

} // verus!
