//! Network panel tabs and the chain emission figures they show.

use vstd::prelude::*;
use crate::setup::StratumSetup;

verus! {

/// Network panel tab.
#[derive(PartialEq, Eq, Structural, Clone, Copy, Debug)]
pub enum NetworkTabType {
    Node,
    Metrics,
    Mining,
    Settings,
}

/// Localization key of a tab's name.
pub open spec fn tab_key(t: NetworkTabType) -> Seq<char> {
    match t {
        NetworkTabType::Node => "network.node"@,
        NetworkTabType::Metrics => "network.metrics"@,
        NetworkTabType::Mining => "network.mining"@,
        NetworkTabType::Settings => "network.settings"@,
    }
}

impl NetworkTabType {
    /// Localization key of the tab name.
    pub fn name(&self) -> (r: &'static str)
        ensures
            r@ == tab_key(*self),
    {
        match *self {
            NetworkTabType::Node => "network.node",
            NetworkTabType::Metrics => "network.metrics",
            NetworkTabType::Mining => "network.mining",
            NetworkTabType::Settings => "network.settings",
        }
    }

    /// Localization key of the tab title.
    pub fn title(&self) -> (r: &'static str)
        ensures
            r@ == tab_key(*self),
    {
        self.name()
    }
}

/// Block reward in whole coins.
pub const BLOCK_REWARD: u64 = 60;

/// Coins emitted in one year, counted as 365 days and 6 hours.
pub const YEARLY_SUPPLY: u64 = 31557600;

/// Coins in circulation at a chain height.
pub open spec fn supply_at(height: nat) -> nat {
    height * BLOCK_REWARD as nat
}

/// Yearly inflation rate in percents at a chain height, rounded down.
pub open spec fn inflation_at(height: nat) -> nat {
    (YEARLY_SUPPLY as nat * 100) / supply_at(height)
}

/// Chain metrics tab content.
pub struct NetworkMetrics;

impl NetworkMetrics {
    /// Emission figures at a chain height: coins in circulation and yearly inflation
    /// rate in percents.
    pub fn emission(height: u64) -> (r: (u64, u64))
        requires
            height > 0,
            height * BLOCK_REWARD <= u64::MAX,
        ensures
            r.0 == supply_at(height as nat),
            r.1 == inflation_at(height as nat),
    {
        let supply = height * BLOCK_REWARD;
        let rate = (YEARLY_SUPPLY * 100) / supply;
        (supply, rate)
    }
}

/// Mining tab content.
pub struct NetworkMining {
    /// Stratum server setup content.
    pub stratum_server_setup: StratumSetup,
}

/// Integrated node tab content.
pub struct NetworkNode;

} // verus!
