//! Tabs of the network panel that carry their own titles.

use vstd::prelude::*;
use crate::network::NetworkTabType;
use crate::text::{to_uppercase, uppercase};

verus! {

/// Chain metrics tab with its title.
pub struct NetworkMetrics {
    title: String,
}

impl NetworkMetrics {
    /// Title of the tab.
    pub closed spec fn spec_title(self) -> Seq<char> {
        self.title@
    }

    /// Tab titled with the localized metrics text in upper case.
    pub fn new(metrics_text: &str) -> (r: Self)
        ensures
            r.spec_title() == uppercase(metrics_text@),
    {
        NetworkMetrics { title: to_uppercase(metrics_text) }
    }

    /// Title of the tab.
    pub fn name(&self) -> (r: &String)
        ensures
            r@ == self.spec_title(),
    {
        &self.title
    }
}

/// Mining tab.
pub struct NetworkMining;

impl NetworkMining {
    /// Type of the tab.
    pub fn get_type(&self) -> (r: NetworkTabType)
        ensures
            r == NetworkTabType::Mining,
    {
        NetworkTabType::Mining
    }
}

/// Integrated node tab with its title.
pub struct NetworkNode {
    title: String,
}

impl NetworkNode {
    /// Title of the tab.
    pub closed spec fn spec_title(self) -> Seq<char> {
        self.title@
    }

    /// Tab titled with the localized integrated node text.
    pub fn new(title: String) -> (r: Self)
        ensures
            r.spec_title() == title@,
    {
        NetworkNode { title }
    }

    /// Title of the tab.
    pub fn name(&self) -> (r: &String)
        ensures
            r@ == self.spec_title(),
    {
        &self.title
    }
}

} // verus!
