//! Decisions of the network panel: what it shows for its mode and the node state, and
//! how it answers the clicks of its tab and title buttons.

use vstd::prelude::*;
use crate::network::NetworkTabType;

verus! {

/// Parts of the network panel that are shown.
#[derive(PartialEq, Eq, Structural, Clone, Copy, Debug)]
pub struct PanelLayout {
    /// Title of the selected node tab with the sync status, else the connections title.
    pub tab_title: bool,
    /// Button that shows the connections, in the title.
    pub connections_button: bool,
    /// Button that closes the panel, in the title.
    pub panel_button: bool,
    /// Node tab buttons at the bottom.
    pub tabs_bar: bool,
    /// Content of the selected node tab.
    pub node_content: bool,
    /// Divider line right of the node tab content.
    pub node_divider: bool,
    /// Divider line right of the connections.
    pub connections_divider: bool,
}

/// Parts of the panel shown with the connections shown or not, in dual panel mode or
/// not: the node title, its connections button, its tab buttons and its tab content
/// without the connections; the panel button outside of dual panel mode; the node divider
/// in dual panel mode, the connections divider there too when the connections are shown.
pub open spec fn layout_of(show_connections: bool, dual_panel: bool) -> PanelLayout {
    PanelLayout {
        tab_title: !show_connections,
        connections_button: !show_connections,
        panel_button: !dual_panel,
        tabs_bar: !show_connections,
        node_content: !show_connections,
        node_divider: dual_panel,
        connections_divider: show_connections && dual_panel,
    }
}

/// Choose the parts of the network panel to show.
pub fn panel_layout(show_connections: bool, dual_panel: bool) -> (r: PanelLayout)
    ensures
        r == layout_of(show_connections, dual_panel),
{
    PanelLayout {
        tab_title: !show_connections,
        connections_button: !show_connections,
        panel_button: !dual_panel,
        tabs_bar: !show_connections,
        node_content: !show_connections,
        node_divider: dual_panel,
        connections_divider: show_connections && dual_panel,
    }
}

/// Content shown at the place of the selected node tab.
#[derive(PartialEq, Eq, Structural, Clone, Copy, Debug)]
pub enum NodeContentView {
    /// Error of the node with a way to recover.
    Error,
    /// The node is not running, with a button to start it.
    Disabled,
    /// Waiting for the node.
    Loading,
    /// Content of the tab.
    Tab,
}

/// Choose the content at the place of the selected node tab: the settings tab is always
/// shown; another tab gives way to the node error, then to the disabled node, then to a
/// loading indicator without statistics or while the node restarts or stops.
pub fn node_content_view(
    tab: NetworkTabType,
    has_error: bool,
    running: bool,
    has_stats: bool,
    restarting: bool,
    stopping: bool,
) -> (r: NodeContentView)
    ensures
        r == (if tab == NetworkTabType::Settings {
            NodeContentView::Tab
        } else if has_error {
            NodeContentView::Error
        } else if !running {
            NodeContentView::Disabled
        } else if !has_stats || restarting || stopping {
            NodeContentView::Loading
        } else {
            NodeContentView::Tab
        }),
{
    if tab == NetworkTabType::Settings {
        NodeContentView::Tab
    } else if has_error {
        NodeContentView::Error
    } else if !running {
        NodeContentView::Disabled
    } else if !has_stats || restarting || stopping {
        NodeContentView::Loading
    } else {
        NodeContentView::Tab
    }
}

/// Whether the panel is drawn again after the statistics update delay: while the node
/// runs and the panel is seen, in dual panel mode or opened.
pub fn repaint_needed(dual_panel: bool, panel_open: bool, node_running: bool) -> (r: bool)
    ensures
        r == (((!dual_panel && panel_open) || dual_panel) && node_running),
{
    ((!dual_panel && panel_open) || dual_panel) && node_running
}

/// State of the network panel: the selected node tab and whether the connections are
/// shown in place of the node tabs.
#[derive(PartialEq, Eq, Structural, Clone, Copy, Debug)]
pub struct NetworkPanel {
    /// Selected node tab.
    pub tab: NetworkTabType,
    /// The connections are shown.
    pub show_connections: bool,
}

/// Click at the network panel.
#[derive(PartialEq, Eq, Structural, Clone, Copy, Debug)]
pub enum PanelEvent {
    /// A node tab button.
    TabClicked(NetworkTabType),
    /// The title button that shows the connections.
    ConnectionsClicked,
    /// The title button that closes the panel.
    PanelClicked,
}

/// What follows a click at the panel, besides its new state.
#[derive(PartialEq, Eq, Structural, Clone, Copy, Debug)]
pub enum PanelAction {
    /// Nothing more.
    Nothing,
    /// Save whether the connections are shown and check the external connections.
    ShowConnections,
    /// Close or open the network panel of the application.
    TogglePanel,
}

/// Next state and action of the panel after a click: a tab button selects its tab; the
/// connections button, shown while the connections are not, shows them and asks to check
/// the connections; the panel button changes nothing here and asks to toggle the panel.
pub open spec fn panel_step_of(panel: NetworkPanel, event: PanelEvent) -> (NetworkPanel, PanelAction) {
    match event {
        PanelEvent::TabClicked(t) => (NetworkPanel { tab: t, ..panel }, PanelAction::Nothing),
        PanelEvent::ConnectionsClicked => if !panel.show_connections {
            (NetworkPanel { show_connections: true, ..panel }, PanelAction::ShowConnections)
        } else {
            (panel, PanelAction::Nothing)
        },
        PanelEvent::PanelClicked => (panel, PanelAction::TogglePanel),
    }
}

impl NetworkPanel {
    /// Panel with the node tab selected and the connections shown or not.
    pub fn new(show_connections: bool) -> (r: Self)
        ensures
            r.tab == NetworkTabType::Node,
            r.show_connections == show_connections,
    {
        NetworkPanel { tab: NetworkTabType::Node, show_connections }
    }

    /// Answer a click at the panel.
    pub fn step(self, event: PanelEvent) -> (r: (NetworkPanel, PanelAction))
        ensures
            r == panel_step_of(self, event),
    {
        match event {
            PanelEvent::TabClicked(t) => (NetworkPanel { tab: t, ..self }, PanelAction::Nothing),
            PanelEvent::ConnectionsClicked => if !self.show_connections {
                (NetworkPanel { show_connections: true, ..self }, PanelAction::ShowConnections)
            } else {
                (self, PanelAction::Nothing)
            },
            PanelEvent::PanelClicked => (self, PanelAction::TogglePanel),
        }
    }
}

/// A tab button selects its tab whatever the panel showed, and a second click on it
/// changes nothing more.
pub proof fn law_tab_click_selects(panel: NetworkPanel, t: NetworkTabType)
    ensures
        panel_step_of(panel, PanelEvent::TabClicked(t)).0.tab == t,
        panel_step_of(panel_step_of(panel, PanelEvent::TabClicked(t)).0, PanelEvent::TabClicked(t))
            == (panel_step_of(panel, PanelEvent::TabClicked(t)).0, PanelAction::Nothing),
{
}

/// Once the connections are shown, the layout holds no node tab parts.
pub proof fn law_connections_hide_node(panel: NetworkPanel, dual_panel: bool)
    ensures
        ({
            let shown = panel_step_of(panel, PanelEvent::ConnectionsClicked).0;
            let l = layout_of(shown.show_connections, dual_panel);
            shown.show_connections && !l.tabs_bar && !l.node_content && !l.tab_title
        }),
{
}

/// Controls of the integrated node at the server settings.
#[derive(PartialEq, Eq, Structural, Clone, Copy, Debug)]
pub enum NodeControls {
    /// A loading indicator while the node stops, restarts or starts.
    Loading,
    /// Buttons to stop and to restart the running node.
    StopRestart,
    /// Button to start the node.
    Enable,
}

/// Choose the controls of the integrated node at the server settings.
pub fn node_controls(stopping: bool, restarting: bool, starting: bool, running: bool) -> (r:
    NodeControls)
    ensures
        r == (if stopping || restarting || starting {
            NodeControls::Loading
        } else if running {
            NodeControls::StopRestart
        } else {
            NodeControls::Enable
        }),
{
    if stopping || restarting || starting {
        NodeControls::Loading
    } else if running {
        NodeControls::StopRestart
    } else {
        NodeControls::Enable
    }
}

} // verus!
