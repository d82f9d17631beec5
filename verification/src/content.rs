//! Main content state: the exit confirmation flow, the modals shown at the first draw
//! and the network panel state.

use vstd::prelude::*;
use crate::modal::{Modal, ModalPosition, ModalState, shown_title};

verus! {

/// What the application does after an exit decision.
#[derive(PartialEq, Eq, Structural, Clone, Copy)]
pub enum ExitAction {
    /// Nothing: the confirmation stays.
    Stay,
    /// Close the application.
    Exit,
    /// Stop the integrated node, then wait for it while the progress is shown.
    StopNode,
}

/// Main content state.
pub struct Content {
    /// Flag to check if application exit is allowed.
    pub exit_allowed: bool,
    /// Flag to show exit progress at [`Modal`].
    pub show_exit_progress: bool,
    /// Flag to check it's first draw of content.
    pub first_draw: bool,
    /// Flag to check if the network panel is open.
    pub network_panel_open: bool,
}

/// `m` is a closeable modal with identifier `id` at the center with title `title`.
pub open spec fn is_titled_modal(m: Modal, id: Seq<char>, title: Seq<char>) -> bool {
    &&& m.id@ == id
    &&& m.position == ModalPosition::Center
    &&& m.closeable
    &&& m.first_draw
    &&& m.title matches Some(t) && t@ == shown_title(title)
}

impl Content {
    /// Identifier for exit confirmation [`Modal`].
    pub const EXIT_CONFIRMATION_MODAL: &'static str = "exit_confirmation_modal";
    /// Identifier for settings [`Modal`].
    pub const SETTINGS_MODAL: &'static str = "settings_modal";
    /// Identifier for integrated node warning [`Modal`] on Android.
    pub const ANDROID_INTEGRATED_NODE_WARNING_MODAL: &'static str = "android_node_warning_modal";
    /// Identifier for crash report [`Modal`].
    pub const CRASH_REPORT_MODAL: &'static str = "crash_report_modal";

    /// Content before the first draw: exit is allowed at once on mobile platforms, where
    /// the system closes the application.
    pub fn new(mobile: bool) -> (r: Self)
        ensures
            r.exit_allowed == mobile,
            !r.show_exit_progress,
            r.first_draw,
            !r.network_panel_open,
    {
        Content {
            exit_allowed: mobile,
            show_exit_progress: false,
            first_draw: true,
            network_panel_open: false,
        }
    }

    /// Identifiers of the modals that the content draws.
    pub fn modal_ids(&self) -> (r: Vec<&'static str>)
        ensures
            r@ == seq![
                Self::EXIT_CONFIRMATION_MODAL,
                Self::SETTINGS_MODAL,
                Self::ANDROID_INTEGRATED_NODE_WARNING_MODAL,
                Self::CRASH_REPORT_MODAL,
            ],
    {
        vec![
            Self::EXIT_CONFIRMATION_MODAL,
            Self::SETTINGS_MODAL,
            Self::ANDROID_INTEGRATED_NODE_WARNING_MODAL,
            Self::CRASH_REPORT_MODAL,
        ]
    }

    /// At the first draw, show the crash report when one was saved, or else the
    /// integrated node warning when it is needed on Android; later draws show nothing.
    pub fn on_first_draw(
        &mut self,
        crash_report: bool,
        android_warning: bool,
        crash_title: String,
        node_title: String,
        state: &mut ModalState,
    )
        ensures
            !final(self).first_draw,
            final(self).exit_allowed == old(self).exit_allowed,
            final(self).show_exit_progress == old(self).show_exit_progress,
            final(self).network_panel_open == old(self).network_panel_open,
            if old(self).first_draw && crash_report {
                final(state).modal matches Some(m) && m.id@ == Self::CRASH_REPORT_MODAL@
                    && m.position == ModalPosition::Center && !m.closeable && m.first_draw && (
                m.title matches Some(t) && t@ == shown_title(crash_title@))
            } else if old(self).first_draw && android_warning {
                final(state).modal matches Some(m) && is_titled_modal(
                    m,
                    Self::ANDROID_INTEGRATED_NODE_WARNING_MODAL@,
                    node_title@,
                )
            } else {
                *final(state) == *old(state)
            },
    {
        if self.first_draw {
            if crash_report {
                Modal::new(Self::CRASH_REPORT_MODAL).closeable(false).position(
                    ModalPosition::Center,
                ).title(crash_title).show(state);
            } else if android_warning {
                Modal::new(Self::ANDROID_INTEGRATED_NODE_WARNING_MODAL).title(node_title).show(
                    state,
                );
            }
            self.first_draw = false;
        }
    }

    /// Show exit confirmation [`Modal`] with title `title`.
    pub fn show_exit_modal(title: String, state: &mut ModalState)
        ensures
            final(state).modal matches Some(m) && is_titled_modal(
                m,
                Self::EXIT_CONFIRMATION_MODAL@,
                title@,
            ),
    {
        Modal::new(Self::EXIT_CONFIRMATION_MODAL).title(title).show(state);
    }

    /// Exit was confirmed. Without a running node the application exits at once and the
    /// modal closes; otherwise the node is to be stopped, the modal can no longer be
    /// closed, gets title `exit_title` and shows the exit progress.
    pub fn on_exit_confirmed(&mut self, node_running: bool, exit_title: String, state: &mut ModalState) -> (r:
        ExitAction)
        ensures
            final(self).first_draw == old(self).first_draw,
            final(self).network_panel_open == old(self).network_panel_open,
            if node_running {
                &&& r == ExitAction::StopNode
                &&& final(self).show_exit_progress
                &&& final(self).exit_allowed == old(self).exit_allowed
                &&& match old(state).modal {
                    Some(m) => final(state).modal matches Some(n) && !n.closeable && n.id == m.id
                        && n.position == m.position && n.first_draw == m.first_draw && (
                    n.title matches Some(t) && t@ == shown_title(exit_title@)),
                    None => final(state).modal is None,
                }
            } else {
                &&& r == ExitAction::Exit
                &&& final(self).exit_allowed
                &&& final(self).show_exit_progress == old(self).show_exit_progress
                &&& final(state).modal is None
            },
    {
        if !node_running {
            self.exit_allowed = true;
            Modal::close(state);
            ExitAction::Exit
        } else {
            match state.modal.take() {
                Some(mut m) => {
                    m.disable_closing();
                    state.modal = Some(m);
                },
                None => {},
            }
            Modal::set_title(state, exit_title);
            self.show_exit_progress = true;
            ExitAction::StopNode
        }
    }

    /// The exit confirmation is drawn: while the exit progress is shown, the application
    /// exits and the modal closes as soon as the node no longer runs.
    pub fn on_exit_progress(&mut self, node_running: bool, state: &mut ModalState) -> (r: ExitAction)
        ensures
            final(self).first_draw == old(self).first_draw,
            final(self).network_panel_open == old(self).network_panel_open,
            final(self).show_exit_progress == old(self).show_exit_progress,
            if old(self).show_exit_progress && !node_running {
                &&& r == ExitAction::Exit
                &&& final(self).exit_allowed
                &&& final(state).modal is None
            } else {
                &&& r == ExitAction::Stay
                &&& final(self).exit_allowed == old(self).exit_allowed
                &&& *final(state) == *old(state)
            },
    {
        if self.show_exit_progress && !node_running {
            self.exit_allowed = true;
            Modal::close(state);
            ExitAction::Exit
        } else {
            ExitAction::Stay
        }
    }

    /// Back navigation, first step: the shown modal goes back, closing when it can be
    /// closed. Returns `true` when no modal was shown: the wallets are then to go back,
    /// and their answer is handed to [`Content::on_wallets_back`].
    pub fn on_back(state: &mut ModalState) -> (r: bool)
        ensures
            r == old(state).modal is None,
            *final(state) == old(state).after_back(),
    {
        Modal::on_back(state)
    }

    /// Back navigation, second step: when the wallets had nothing left to go back to, the
    /// exit confirmation with title `title` shows; otherwise nothing changes.
    pub fn on_wallets_back(wallets_done: bool, title: String, state: &mut ModalState)
        ensures
            if wallets_done {
                final(state).modal matches Some(m) && is_titled_modal(
                    m,
                    Self::EXIT_CONFIRMATION_MODAL@,
                    title@,
                )
            } else {
                *final(state) == *old(state)
            },
    {
        if wallets_done {
            Self::show_exit_modal(title, state);
        }
    }

    /// Toggle the network panel state.
    pub fn toggle_network_panel(&mut self)
        ensures
            final(self).network_panel_open == !old(self).network_panel_open,
            final(self).exit_allowed == old(self).exit_allowed,
            final(self).show_exit_progress == old(self).show_exit_progress,
            final(self).first_draw == old(self).first_draw,
    {
        self.network_panel_open = !self.network_panel_open;
    }

    /// Check if the network panel is open.
    pub fn is_network_panel_open(&self) -> (r: bool)
        ensures
            r == self.network_panel_open,
    {
        self.network_panel_open
    }
}

} // verus!
