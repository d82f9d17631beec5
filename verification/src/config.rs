//! Application configuration values and their updates.

use vstd::prelude::*;

verus! {

/// Chain type for node and wallets.
#[derive(PartialEq, Eq, Structural, Clone, Copy)]
pub enum ChainTypes {
    AutomatedTesting,
    UserTesting,
    Testnet,
    Mainnet,
}

/// Application configuration.
pub struct AppConfig {
    /// Run node server on startup.
    pub auto_start_node: bool,
    /// Chain type for node and wallets.
    pub chain_type: ChainTypes,
    /// Flag to show wallet list at dual panel wallets mode.
    pub show_wallets_at_dual_panel: bool,
    /// Flag to show all connections at network panel or integrated node info.
    pub show_connections_network_panel: bool,
}

impl Default for AppConfig {
    /// Default configuration: main network, no node autostart, flags unset.
    fn default() -> (c: Self)
        ensures
            !c.auto_start_node,
            c.chain_type == ChainTypes::Mainnet,
            !c.show_wallets_at_dual_panel,
            !c.show_connections_network_panel,
    {
        AppConfig {
            auto_start_node: false,
            chain_type: ChainTypes::Mainnet,
            show_wallets_at_dual_panel: false,
            show_connections_network_panel: false,
        }
    }
}

impl AppConfig {
    /// Application configuration file name.
    pub const FILE_NAME: &'static str = "app.toml";

    /// Change chain type. Returns `true` when it differs from the current one: then the
    /// configuration must be saved and node and connection settings loaded for it.
    pub fn change_chain_type(&mut self, chain_type: &ChainTypes) -> (changed: bool)
        ensures
            changed == (old(self).chain_type != *chain_type),
            final(self).chain_type == *chain_type,
            final(self).auto_start_node == old(self).auto_start_node,
            final(self).show_wallets_at_dual_panel == old(self).show_wallets_at_dual_panel,
            final(self).show_connections_network_panel == old(
                self,
            ).show_connections_network_panel,
    {
        if self.chain_type != *chain_type {
            self.chain_type = *chain_type;
            true
        } else {
            false
        }
    }

    /// Get current chain type for node and wallets.
    pub fn chain_type(&self) -> (r: ChainTypes)
        ensures
            r == self.chain_type,
    {
        self.chain_type
    }

    /// Check if integrated node is starting with application.
    pub fn autostart_node(&self) -> (r: bool)
        ensures
            r == self.auto_start_node,
    {
        self.auto_start_node
    }

    /// Toggle integrated node autostart.
    pub fn toggle_node_autostart(&mut self)
        ensures
            final(self).auto_start_node == !old(self).auto_start_node,
            final(self).chain_type == old(self).chain_type,
            final(self).show_wallets_at_dual_panel == old(self).show_wallets_at_dual_panel,
            final(self).show_connections_network_panel == old(
                self,
            ).show_connections_network_panel,
    {
        self.auto_start_node = !self.auto_start_node;
    }

    /// Check if it's needed to show wallet list at dual panel wallets mode.
    pub fn show_wallets_at_dual_panel(&self) -> (r: bool)
        ensures
            r == self.show_wallets_at_dual_panel,
    {
        self.show_wallets_at_dual_panel
    }

    /// Toggle flag to show wallet list at dual panel wallets mode.
    pub fn toggle_show_wallets_at_dual_panel(&mut self)
        ensures
            final(self).show_wallets_at_dual_panel == !old(self).show_wallets_at_dual_panel,
            final(self).auto_start_node == old(self).auto_start_node,
            final(self).chain_type == old(self).chain_type,
            final(self).show_connections_network_panel == old(
                self,
            ).show_connections_network_panel,
    {
        self.show_wallets_at_dual_panel = !self.show_wallets_at_dual_panel;
    }

    /// Check if it's needed to show all connections or integrated node info at network panel.
    pub fn show_connections_network_panel(&self) -> (r: bool)
        ensures
            r == self.show_connections_network_panel,
    {
        self.show_connections_network_panel
    }

    /// Toggle flag to show all connections or integrated node info at network panel.
    pub fn toggle_show_connections_network_panel(&mut self)
        ensures
            final(self).show_connections_network_panel == !old(
                self,
            ).show_connections_network_panel,
            final(self).auto_start_node == old(self).auto_start_node,
            final(self).chain_type == old(self).chain_type,
            final(self).show_wallets_at_dual_panel == old(self).show_wallets_at_dual_panel,
    {
        self.show_connections_network_panel = !self.show_connections_network_panel;
    }
}

} // verus!
