//! Node settings sections: values entered at modals are accepted when they parse as
//! the setting's type (or, for ports, when the port is available); an accepted value
//! closes the modal, a rejected one keeps it open.

use vstd::prelude::*;
use crate::config::ChainTypes;
use crate::modal::{Modal, ModalPosition, ModalState, shown_title};
use crate::number::{
    parse_i64, parse_u16, parse_u32, parse_u64, parse_u8, parse_usize, i64_value, u16_value,
    u32_value, u64_value, u8_value, usize_value,
};

verus! {

/// Modal state after a save: closed when a value was accepted, unchanged otherwise.
pub open spec fn after_save(accepted: bool, before: ModalState, after: ModalState) -> bool {
    if accepted {
        after.modal is None
    } else {
        after == before
    }
}

/// `m` is a value edit modal with identifier `id`, shown at the top with title `title`.
pub open spec fn is_value_modal(m: Modal, id: Seq<char>, title: Seq<char>) -> bool {
    &&& m.id@ == id
    &&& m.position == ModalPosition::CenterTop
    &&& m.closeable
    &&& m.first_draw
    &&& m.title matches Some(t) && t@ == shown_title(title)
}

/// `m` is a modal with identifier `id`, shown at the center with title `title`.
pub open spec fn is_center_modal(m: Modal, id: Seq<char>, title: Seq<char>) -> bool {
    &&& m.id@ == id
    &&& m.position == ModalPosition::Center
    &&& m.closeable
    &&& m.first_draw
    &&& m.title matches Some(t) && t@ == shown_title(title)
}

fn close_when(accepted: bool, state: &mut ModalState)
    ensures
        after_save(accepted, *old(state), *final(state)),
{
    if accepted {
        Modal::close(state);
    }
}

/// Show a value edit modal at the top of the screen.
fn show_value_modal(id: &'static str, title: String, state: &mut ModalState)
    ensures
        final(state).modal matches Some(m) && is_value_modal(m, id@, title@),
{
    Modal::new(id).position(ModalPosition::CenterTop).title(title).show(state);
}

/// Value of the memory pool setup.
#[derive(PartialEq, Eq, Structural, Clone, Copy)]
pub enum PoolValue {
    FeeBase,
    ReorgPeriod,
    PoolSize,
    StempoolSize,
    MaxWeight,
}

/// Modal identifier of a memory pool value.
pub open spec fn pool_modal_id(v: PoolValue) -> Seq<char> {
    match v {
        PoolValue::FeeBase => PoolSetup::FEE_BASE_MODAL@,
        PoolValue::ReorgPeriod => PoolSetup::REORG_PERIOD_MODAL@,
        PoolValue::PoolSize => PoolSetup::POOL_SIZE_MODAL@,
        PoolValue::StempoolSize => PoolSetup::STEMPOOL_SIZE_MODAL@,
        PoolValue::MaxWeight => PoolSetup::MAX_WEIGHT_MODAL@,
    }
}

/// Memory pool setup section.
pub struct PoolSetup {
    /// Base fee value that's accepted into the pool.
    pub fee_base_edit: String,
    /// Reorg cache retention period value in minutes.
    pub reorg_period_edit: String,
    /// Maximum number of transactions allowed in the pool.
    pub pool_size_edit: String,
    /// Maximum number of transactions allowed in the stempool.
    pub stempool_size_edit: String,
    /// Maximum total weight of transactions to build a block.
    pub max_weight_edit: String,
}

impl PoolSetup {
    pub const FEE_BASE_MODAL: &'static str = "fee_base";
    pub const REORG_PERIOD_MODAL: &'static str = "reorg_period";
    pub const POOL_SIZE_MODAL: &'static str = "pool_size";
    pub const STEMPOOL_SIZE_MODAL: &'static str = "stempool_size";
    pub const MAX_WEIGHT_MODAL: &'static str = "max_weight";

    /// Open the modal of a pool value with its saved value `current`.
    pub fn show_value_modal(
        &mut self,
        value: PoolValue,
        current: String,
        title: String,
        state: &mut ModalState,
    )
        ensures
            final(state).modal matches Some(m) && is_value_modal(m, pool_modal_id(value), title@),
            *final(self) == (match value {
                PoolValue::FeeBase => PoolSetup { fee_base_edit: current, ..*old(self) },
                PoolValue::ReorgPeriod => PoolSetup { reorg_period_edit: current, ..*old(self) },
                PoolValue::PoolSize => PoolSetup { pool_size_edit: current, ..*old(self) },
                PoolValue::StempoolSize => PoolSetup { stempool_size_edit: current, ..*old(self) },
                PoolValue::MaxWeight => PoolSetup { max_weight_edit: current, ..*old(self) },
            }),
    {
        let id = match value {
            PoolValue::FeeBase => {
                self.fee_base_edit = current;
                Self::FEE_BASE_MODAL
            },
            PoolValue::ReorgPeriod => {
                self.reorg_period_edit = current;
                Self::REORG_PERIOD_MODAL
            },
            PoolValue::PoolSize => {
                self.pool_size_edit = current;
                Self::POOL_SIZE_MODAL
            },
            PoolValue::StempoolSize => {
                self.stempool_size_edit = current;
                Self::STEMPOOL_SIZE_MODAL
            },
            PoolValue::MaxWeight => {
                self.max_weight_edit = current;
                Self::MAX_WEIGHT_MODAL
            },
        };
        show_value_modal(id, title, state);
    }

    /// Save the base fee: accepted when it is a `u64`.
    pub fn on_fee_base_save(&self, state: &mut ModalState) -> (r: Option<u64>)
        ensures
            r == u64_value(self.fee_base_edit@),
            after_save(r is Some, *old(state), *final(state)),
    {
        let r = parse_u64(self.fee_base_edit.as_str());
        close_when(r.is_some(), state);
        r
    }

    /// Save the reorg cache period: accepted when it is a `u32`.
    pub fn on_reorg_period_save(&self, state: &mut ModalState) -> (r: Option<u32>)
        ensures
            r == u32_value(self.reorg_period_edit@),
            after_save(r is Some, *old(state), *final(state)),
    {
        let r = parse_u32(self.reorg_period_edit.as_str());
        close_when(r.is_some(), state);
        r
    }

    /// Save the pool size: accepted when it is a `usize`.
    pub fn on_pool_size_save(&self, state: &mut ModalState) -> (r: Option<usize>)
        ensures
            r == usize_value(self.pool_size_edit@),
            after_save(r is Some, *old(state), *final(state)),
    {
        let r = parse_usize(self.pool_size_edit.as_str());
        close_when(r.is_some(), state);
        r
    }

    /// Save the stempool size: accepted when it is a `usize`.
    pub fn on_stempool_size_save(&self, state: &mut ModalState) -> (r: Option<usize>)
        ensures
            r == usize_value(self.stempool_size_edit@),
            after_save(r is Some, *old(state), *final(state)),
    {
        let r = parse_usize(self.stempool_size_edit.as_str());
        close_when(r.is_some(), state);
        r
    }

    /// Save the maximum weight: accepted when it is a `u64`.
    pub fn on_max_weight_save(&self, state: &mut ModalState) -> (r: Option<u64>)
        ensures
            r == u64_value(self.max_weight_edit@),
            after_save(r is Some, *old(state), *final(state)),
    {
        let r = parse_u64(self.max_weight_edit.as_str());
        close_when(r.is_some(), state);
        r
    }
}

/// Value of the DandelionSetup section.
#[derive(PartialEq, Eq, Structural, Clone, Copy)]
pub enum DandelionValue {
    Epoch,
    Embargo,
    Aggregation,
    StemProbability,
}

/// Modal identifier of a value of the DandelionSetup section.
pub open spec fn dandelion_modal_id(v: DandelionValue) -> Seq<char> {
    match v {
        DandelionValue::Epoch => DandelionSetup::EPOCH_MODAL@,
        DandelionValue::Embargo => DandelionSetup::EMBARGO_MODAL@,
        DandelionValue::Aggregation => DandelionSetup::AGGREGATION_MODAL@,
        DandelionValue::StemProbability => DandelionSetup::STEM_PROBABILITY_MODAL@,
    }
}

/// Dandelion setup section.
pub struct DandelionSetup {
    /// Epoch duration value in seconds.
    pub epoch_edit: String,
    /// Embargo expiration time value in seconds.
    pub embargo_edit: String,
    /// Aggregation period value in seconds.
    pub aggregation_edit: String,
    /// Stem phase probability value.
    pub stem_prob_edit: String,
}

impl DandelionSetup {
    pub const EPOCH_MODAL: &'static str = "epoch_secs";
    pub const EMBARGO_MODAL: &'static str = "embargo_secs";
    pub const AGGREGATION_MODAL: &'static str = "aggregation_secs";
    pub const STEM_PROBABILITY_MODAL: &'static str = "stem_probability";

    /// Open the modal of a value with its saved value `current`.
    pub fn show_value_modal(
        &mut self,
        value: DandelionValue,
        current: String,
        title: String,
        state: &mut ModalState,
    )
        ensures
            final(state).modal matches Some(m) && is_value_modal(m, dandelion_modal_id(value), title@),
            *final(self) == (match value {
                DandelionValue::Epoch => DandelionSetup { epoch_edit: current, ..*old(self) },
                DandelionValue::Embargo => DandelionSetup { embargo_edit: current, ..*old(self) },
                DandelionValue::Aggregation => DandelionSetup { aggregation_edit: current, ..*old(self) },
                DandelionValue::StemProbability => DandelionSetup { stem_prob_edit: current, ..*old(self) },
            }),
    {
        let id = match value {
            DandelionValue::Epoch => {
                self.epoch_edit = current;
                Self::EPOCH_MODAL
            },
            DandelionValue::Embargo => {
                self.embargo_edit = current;
                Self::EMBARGO_MODAL
            },
            DandelionValue::Aggregation => {
                self.aggregation_edit = current;
                Self::AGGREGATION_MODAL
            },
            DandelionValue::StemProbability => {
                self.stem_prob_edit = current;
                Self::STEM_PROBABILITY_MODAL
            },
        };
        show_value_modal(id, title, state);
    }

    /// Save the epoch duration: accepted when it is a `u16`.
    pub fn on_epoch_save(&self, state: &mut ModalState) -> (r: Option<u16>)
        ensures
            r == u16_value(self.epoch_edit@),
            after_save(r is Some, *old(state), *final(state)),
    {
        let r = parse_u16(self.epoch_edit.as_str());
        close_when(r.is_some(), state);
        r
    }

    /// Save the embargo time: accepted when it is a `u16`.
    pub fn on_embargo_save(&self, state: &mut ModalState) -> (r: Option<u16>)
        ensures
            r == u16_value(self.embargo_edit@),
            after_save(r is Some, *old(state), *final(state)),
    {
        let r = parse_u16(self.embargo_edit.as_str());
        close_when(r.is_some(), state);
        r
    }

    /// Save the aggregation period: accepted when it is a `u16`.
    pub fn on_aggregation_save(&self, state: &mut ModalState) -> (r: Option<u16>)
        ensures
            r == u16_value(self.aggregation_edit@),
            after_save(r is Some, *old(state), *final(state)),
    {
        let r = parse_u16(self.aggregation_edit.as_str());
        close_when(r.is_some(), state);
        r
    }

    /// Save the stem probability: accepted when it is a `u8`.
    pub fn on_stem_prob_save(&self, state: &mut ModalState) -> (r: Option<u8>)
        ensures
            r == u8_value(self.stem_prob_edit@),
            after_save(r is Some, *old(state), *final(state)),
    {
        let r = parse_u8(self.stem_prob_edit.as_str());
        close_when(r.is_some(), state);
        r
    }
}

/// Kind of peer list.
#[derive(PartialEq, Eq, Structural, Clone, Copy)]
pub enum PeerType {
    DefaultSeed,
    CustomSeed,
    Allowed,
    Denied,
    Preferred,
}

/// Value of the P2PSetup section.
#[derive(PartialEq, Eq, Structural, Clone, Copy)]
pub enum P2PValue {
    BanWindow,
    MaxInbound,
    MaxOutbound,
}

/// Modal identifier of a value of the P2PSetup section.
pub open spec fn p2p_modal_id(v: P2PValue) -> Seq<char> {
    match v {
        P2PValue::BanWindow => P2PSetup::BAN_WINDOW_MODAL@,
        P2PValue::MaxInbound => P2PSetup::MAX_INBOUND_MODAL@,
        P2PValue::MaxOutbound => P2PSetup::MAX_OUTBOUND_MODAL@,
    }
}

/// Peer-to-peer server setup section.
pub struct P2PSetup {
    /// P2P port value.
    pub port_edit: String,
    /// Flag to check if p2p port is available.
    pub port_available_edit: bool,
    /// Flag to check if p2p port from saved config value is available.
    pub is_port_available: bool,
    /// Flag to check if entered peer address is correct and/or available.
    pub is_correct_address_edit: bool,
    /// Peer edit value for modal.
    pub peer_edit: String,
    /// Default main network seeds.
    pub default_main_seeds: Vec<String>,
    /// Default test network seeds.
    pub default_test_seeds: Vec<String>,
    /// How long banned peer should stay banned.
    pub ban_window_edit: String,
    /// Maximum number of inbound peer connections.
    pub max_inbound_count: String,
    /// Maximum number of outbound peer connections.
    pub max_outbound_count: String,
    /// Flag to check if reset of peers was called.
    pub peers_reset: bool,
}

/// Modal identifier to add a peer to a list.
pub open spec fn peer_modal_id(t: PeerType) -> Seq<char> {
    match t {
        PeerType::Allowed => P2PSetup::ALLOW_PEER_MODAL@,
        PeerType::Denied => P2PSetup::DENY_PEER_MODAL@,
        PeerType::Preferred => P2PSetup::PREFER_PEER_MODAL@,
        _ => P2PSetup::CUSTOM_SEED_MODAL@,
    }
}

impl P2PSetup {
    pub const PORT_MODAL: &'static str = "p2p_port";
    pub const CUSTOM_SEED_MODAL: &'static str = "p2p_custom_seed";
    pub const ALLOW_PEER_MODAL: &'static str = "p2p_allow_peer";
    pub const DENY_PEER_MODAL: &'static str = "p2p_deny_peer";
    pub const PREFER_PEER_MODAL: &'static str = "p2p_prefer_peer";
    pub const BAN_WINDOW_MODAL: &'static str = "p2p_ban_window";
    pub const MAX_INBOUND_MODAL: &'static str = "p2p_max_inbound";
    pub const MAX_OUTBOUND_MODAL: &'static str = "p2p_max_outbound";

    /// Default seeds for the chain type: test network seeds for the test network,
    /// main network seeds otherwise.
    pub fn default_seeds(&self, chain_type: ChainTypes) -> (r: &Vec<String>)
        ensures
            *r == if chain_type == ChainTypes::Testnet {
                self.default_test_seeds
            } else {
                self.default_main_seeds
            },
    {
        if chain_type == ChainTypes::Testnet {
            &self.default_test_seeds
        } else {
            &self.default_main_seeds
        }
    }

    /// Open the port modal with the saved port and its availability.
    pub fn show_port_modal(&mut self, port: String, title: String, state: &mut ModalState)
        ensures
            final(self).port_edit == port,
            final(self).port_available_edit == old(self).is_port_available,
            final(self).is_port_available == old(self).is_port_available,
            final(state).modal matches Some(m) && is_value_modal(m, Self::PORT_MODAL@, title@),
    {
        self.port_edit = port;
        self.port_available_edit = self.is_port_available;
        show_value_modal(Self::PORT_MODAL, title, state);
    }

    /// Save the entered port when it is `available`: then it is a `u16`, the saved port
    /// counts as available and the modal closes.
    pub fn on_port_save(&mut self, available: bool, state: &mut ModalState) -> (r: Option<u16>)
        requires
            available ==> u16_value(old(self).port_edit@) is Some,
        ensures
            final(self).port_available_edit == available,
            final(self).is_port_available == (available || old(self).is_port_available),
            final(self).port_edit == old(self).port_edit,
            r == if available {
                u16_value(old(self).port_edit@)
            } else {
                None
            },
            after_save(available, *old(state), *final(state)),
    {
        self.port_available_edit = available;
        if available {
            let port = parse_u16(self.port_edit.as_str());
            self.is_port_available = true;
            Modal::close(state);
            port
        } else {
            None
        }
    }

    /// Open the modal to add a peer to a list: clear the entered address.
    pub fn show_peer_modal(&mut self, peer_type: PeerType, title: String, state: &mut ModalState)
        ensures
            final(self).is_correct_address_edit,
            final(self).peer_edit@ == Seq::<char>::empty(),
            final(state).modal matches Some(m) && is_value_modal(
                m,
                peer_modal_id(peer_type),
                title@,
            ),
    {
        self.is_correct_address_edit = true;
        self.peer_edit = String::new();
        let id = match peer_type {
            PeerType::Allowed => Self::ALLOW_PEER_MODAL,
            PeerType::Denied => Self::DENY_PEER_MODAL,
            PeerType::Preferred => Self::PREFER_PEER_MODAL,
            _ => Self::CUSTOM_SEED_MODAL,
        };
        show_value_modal(id, title, state);
    }

    /// Save the entered peer when `is_correct_address` (its address could be read): the
    /// peer is returned to be added to the list of the modal and the modal closes.
    pub fn on_peer_save(&mut self, is_correct_address: bool, state: &mut ModalState) -> (r: Option<
        String,
    >)
        ensures
            final(self).is_correct_address_edit == is_correct_address,
            final(self).is_port_available == (is_correct_address || old(self).is_port_available),
            final(self).peer_edit == old(self).peer_edit,
            match r {
                Some(p) => is_correct_address && p@ == old(self).peer_edit@,
                None => !is_correct_address,
            },
            after_save(is_correct_address, *old(state), *final(state)),
    {
        self.is_correct_address_edit = is_correct_address;
        if is_correct_address {
            self.is_port_available = true;
            Modal::close(state);
            Some(self.peer_edit.clone())
        } else {
            None
        }
    }

    /// Open the modal of a value with its saved value `current`.
    pub fn show_value_modal(
        &mut self,
        value: P2PValue,
        current: String,
        title: String,
        state: &mut ModalState,
    )
        ensures
            final(state).modal matches Some(m) && is_value_modal(m, p2p_modal_id(value), title@),
            *final(self) == (match value {
                P2PValue::BanWindow => P2PSetup { ban_window_edit: current, ..*old(self) },
                P2PValue::MaxInbound => P2PSetup { max_inbound_count: current, ..*old(self) },
                P2PValue::MaxOutbound => P2PSetup { max_outbound_count: current, ..*old(self) },
            }),
    {
        let id = match value {
            P2PValue::BanWindow => {
                self.ban_window_edit = current;
                Self::BAN_WINDOW_MODAL
            },
            P2PValue::MaxInbound => {
                self.max_inbound_count = current;
                Self::MAX_INBOUND_MODAL
            },
            P2PValue::MaxOutbound => {
                self.max_outbound_count = current;
                Self::MAX_OUTBOUND_MODAL
            },
        };
        show_value_modal(id, title, state);
    }

    /// Save the ban window: accepted when it is an `i64`.
    pub fn on_ban_window_save(&self, state: &mut ModalState) -> (r: Option<i64>)
        ensures
            r == i64_value(self.ban_window_edit@),
            after_save(r is Some, *old(state), *final(state)),
    {
        let r = parse_i64(self.ban_window_edit.as_str());
        close_when(r.is_some(), state);
        r
    }

    /// Save the maximum number of inbound peers: accepted when it is a `u32`.
    pub fn on_max_inbound_save(&self, state: &mut ModalState) -> (r: Option<u32>)
        ensures
            r == u32_value(self.max_inbound_count@),
            after_save(r is Some, *old(state), *final(state)),
    {
        let r = parse_u32(self.max_inbound_count.as_str());
        close_when(r.is_some(), state);
        r
    }

    /// Save the maximum number of outbound peers: accepted when it is a `u32`.
    pub fn on_max_outbound_save(&self, state: &mut ModalState) -> (r: Option<u32>)
        ensures
            r == u32_value(self.max_outbound_count@),
            after_save(r is Some, *old(state), *final(state)),
    {
        let r = parse_u32(self.max_outbound_count.as_str());
        close_when(r.is_some(), state);
        r
    }

    /// Peers data was reset.
    pub fn on_peers_reset(&mut self)
        ensures
            final(self).peers_reset,
    {
        self.peers_reset = true;
    }
}

/// Entered port of a server with its availability flags.
pub struct PortEdit {
    /// Port to be used inside edit modal.
    pub port_edit: String,
    /// Flag to check if the port is available inside edit modal.
    pub port_available_edit: bool,
    /// Flag to check if the port from saved config value is available.
    pub is_port_available: bool,
}

impl PortEdit {
    /// Save the entered port when it is `available`: the saved port then counts as
    /// available and the modal closes. Returns `true` when the port is to be saved.
    pub fn on_save(&mut self, available: bool, state: &mut ModalState) -> (r: bool)
        ensures
            r == available,
            final(self).port_available_edit == available,
            final(self).is_port_available == (available || old(self).is_port_available),
            final(self).port_edit == old(self).port_edit,
            after_save(available, *old(state), *final(state)),
    {
        self.port_available_edit = available;
        if available {
            self.is_port_available = true;
            Modal::close(state);
        }
        available
    }

    /// Open the port modal with the saved port and its availability.
    pub fn show_modal(&mut self, id: &'static str, port: String, title: String, state: &mut ModalState)
        ensures
            final(self).port_edit == port,
            final(self).port_available_edit == old(self).is_port_available,
            final(self).is_port_available == old(self).is_port_available,
            final(state).modal matches Some(m) && is_value_modal(m, id@, title@),
    {
        self.port_edit = port;
        self.port_available_edit = self.is_port_available;
        show_value_modal(id, title, state);
    }
}

/// Value of the ServerSetup section.
#[derive(PartialEq, Eq, Structural, Clone, Copy)]
pub enum ServerValue {
    ApiSecret,
    ForeignApiSecret,
    Ftl,
}

/// Modal identifier of a value of the ServerSetup section.
pub open spec fn server_modal_id(v: ServerValue) -> Seq<char> {
    match v {
        ServerValue::ApiSecret => ServerSetup::API_SECRET_MODAL@,
        ServerValue::ForeignApiSecret => ServerSetup::FOREIGN_API_SECRET_MODAL@,
        ServerValue::Ftl => ServerSetup::FTL_MODAL@,
    }
}

/// Integrated node server setup section.
pub struct ServerSetup {
    /// API port edit.
    pub api_port: PortEdit,
    /// API secret to be used inside edit modal.
    pub api_secret_edit: String,
    /// Foreign API secret to be used inside edit modal.
    pub foreign_api_secret_edit: String,
    /// Future Time Limit to be used inside edit modal.
    pub ftl_edit: String,
}

impl ServerSetup {
    pub const API_PORT_MODAL: &'static str = "api_port";
    pub const API_SECRET_MODAL: &'static str = "api_secret";
    pub const FOREIGN_API_SECRET_MODAL: &'static str = "foreign_api_secret";
    pub const FTL_MODAL: &'static str = "ftl";

    /// Open the modal of a value with its saved value `current`.
    pub fn show_value_modal(
        &mut self,
        value: ServerValue,
        current: String,
        title: String,
        state: &mut ModalState,
    )
        ensures
            final(state).modal matches Some(m) && is_value_modal(m, server_modal_id(value), title@),
            *final(self) == (match value {
                ServerValue::ApiSecret => ServerSetup { api_secret_edit: current, ..*old(self) },
                ServerValue::ForeignApiSecret => ServerSetup { foreign_api_secret_edit: current, ..*old(self) },
                ServerValue::Ftl => ServerSetup { ftl_edit: current, ..*old(self) },
            }),
    {
        let id = match value {
            ServerValue::ApiSecret => {
                self.api_secret_edit = current;
                Self::API_SECRET_MODAL
            },
            ServerValue::ForeignApiSecret => {
                self.foreign_api_secret_edit = current;
                Self::FOREIGN_API_SECRET_MODAL
            },
            ServerValue::Ftl => {
                self.ftl_edit = current;
                Self::FTL_MODAL
            },
        };
        show_value_modal(id, title, state);
    }

    /// Save a secret: the API secret at its modal, the foreign API secret otherwise. Returns
    /// whether it is the API secret and its value; the modal closes.
    pub fn on_secret_save(&self, modal_id: &str, state: &mut ModalState) -> (r: (bool, String))
        ensures
            r.0 == (modal_id@ == Self::API_SECRET_MODAL@),
            r.1@ == if r.0 {
                self.api_secret_edit@
            } else {
                self.foreign_api_secret_edit@
            },
            final(state).modal is None,
    {
        let api = crate::text::same_text(modal_id, Self::API_SECRET_MODAL);
        let value = if api {
            self.api_secret_edit.clone()
        } else {
            self.foreign_api_secret_edit.clone()
        };
        Modal::close(state);
        (api, value)
    }

    /// Save the future time limit: accepted when it is a `u64`.
    pub fn on_ftl_save(&self, state: &mut ModalState) -> (r: Option<u64>)
        ensures
            r == u64_value(self.ftl_edit@),
            after_save(r is Some, *old(state), *final(state)),
    {
        let r = parse_u64(self.ftl_edit.as_str());
        close_when(r.is_some(), state);
        r
    }
}

/// Value of the StratumServerSetup section.
#[derive(PartialEq, Eq, Structural, Clone, Copy)]
pub enum StratumValue {
    AttemptTime,
    MinShareDiff,
}

/// Modal identifier of a value of the StratumServerSetup section.
pub open spec fn stratum_modal_id(v: StratumValue) -> Seq<char> {
    match v {
        StratumValue::AttemptTime => StratumServerSetup::ATTEMPT_TIME_MODAL@,
        StratumValue::MinShareDiff => StratumServerSetup::MIN_SHARE_DIFF_MODAL@,
    }
}

/// Stratum server setup section.
pub struct StratumServerSetup {
    /// Stratum port edit.
    pub stratum_port: PortEdit,
    /// Attempt time value in seconds to mine on a particular header.
    pub attempt_time_edit: String,
    /// Minimum share difficulty value to request from miners.
    pub min_share_diff_edit: String,
}

impl StratumServerSetup {
    pub const STRATUM_PORT_MODAL: &'static str = "stratum_port";
    pub const ATTEMPT_TIME_MODAL: &'static str = "stratum_attempt_time";
    pub const MIN_SHARE_DIFF_MODAL: &'static str = "stratum_min_share_diff";

    /// Open the modal of a value with its saved value `current`.
    pub fn show_value_modal(
        &mut self,
        value: StratumValue,
        current: String,
        title: String,
        state: &mut ModalState,
    )
        ensures
            final(state).modal matches Some(m) && is_value_modal(m, stratum_modal_id(value), title@),
            *final(self) == (match value {
                StratumValue::AttemptTime => StratumServerSetup { attempt_time_edit: current, ..*old(self) },
                StratumValue::MinShareDiff => StratumServerSetup { min_share_diff_edit: current, ..*old(self) },
            }),
    {
        let id = match value {
            StratumValue::AttemptTime => {
                self.attempt_time_edit = current;
                Self::ATTEMPT_TIME_MODAL
            },
            StratumValue::MinShareDiff => {
                self.min_share_diff_edit = current;
                Self::MIN_SHARE_DIFF_MODAL
            },
        };
        show_value_modal(id, title, state);
    }

    /// Save the attempt time: accepted when it is a `u32`.
    pub fn on_attempt_time_save(&self, state: &mut ModalState) -> (r: Option<u32>)
        ensures
            r == u32_value(self.attempt_time_edit@),
            after_save(r is Some, *old(state), *final(state)),
    {
        let r = parse_u32(self.attempt_time_edit.as_str());
        close_when(r.is_some(), state);
        r
    }

    /// Save the minimum share difficulty: accepted when it is a `u64`.
    pub fn on_min_share_diff_save(&self, state: &mut ModalState) -> (r: Option<u64>)
        ensures
            r == u64_value(self.min_share_diff_edit@),
            after_save(r is Some, *old(state), *final(state)),
    {
        let r = parse_u64(self.min_share_diff_edit.as_str());
        close_when(r.is_some(), state);
        r
    }
}

/// Stratum mining server setup section with the wallet that receives rewards.
pub struct StratumSetup {
    /// Server settings.
    pub server: StratumServerSetup,
    /// Wallet name to receive rewards.
    pub wallet_name: Option<String>,
    /// Identifier of the wallet selected to receive rewards.
    pub wallet_id: Option<i64>,
}

impl StratumSetup {
    pub const WALLET_SELECTION_MODAL: &'static str = "stratum_wallet_selection_modal";

    /// Setup content for the server settings and the saved rewards wallet: its name is
    /// the one found for the saved identifier, and the identifier is kept only when a
    /// name was found.
    pub fn new(server: StratumServerSetup, saved_wallet_id: Option<i64>, name_for_id: Option<
        String,
    >) -> (r: Self)
        ensures
            r.server == server,
            r.wallet_name == (if saved_wallet_id is Some {
                name_for_id
            } else {
                None
            }),
            r.wallet_id == (if r.wallet_name is Some {
                saved_wallet_id
            } else {
                None
            }),
    {
        let wallet_name = match saved_wallet_id {
            Some(_) => name_for_id,
            None => None,
        };
        let wallet_id = match wallet_name {
            Some(_) => saved_wallet_id,
            None => None,
        };
        StratumSetup { server, wallet_name, wallet_id }
    }

    /// Check if the server can be started or stopped: the node is synced, the saved
    /// port is available and a wallet receives the rewards.
    pub fn server_controls_shown(&self, synced: bool) -> (r: bool)
        ensures
            r == (synced && self.server.stratum_port.is_port_available && self.wallet_name is Some),
    {
        synced && self.server.stratum_port.is_port_available && self.wallet_name.is_some()
    }

    /// Show wallet selection [`Modal`] at the center with title `title`.
    pub fn show_wallets_modal(&mut self, title: String, state: &mut ModalState)
        ensures
            final(state).modal matches Some(m) && is_center_modal(
                m,
                Self::WALLET_SELECTION_MODAL@,
                title@,
            ),
            final(self).wallet_name == old(self).wallet_name,
    {
        Modal::new(Self::WALLET_SELECTION_MODAL).position(ModalPosition::Center).title(title).show(
            state,
        );
    }

    /// A wallet was selected for mining rewards: its identifier is kept with the name found
    /// for it.
    pub fn on_wallet_selected(&mut self, id: i64, name: Option<String>)
        ensures
            final(self).wallet_name == name,
            final(self).wallet_id == Some(id),
            final(self).server == old(self).server,
    {
        self.wallet_name = name;
        self.wallet_id = Some(id);
    }
}

} // verus!
