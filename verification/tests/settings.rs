use grim::config::{AppConfig, ChainTypes};
use grim::connections::{
    format_proxy_url, ExternalConnectionModal, NetworkSettingsContent, ProxyChange, TorProxy,
    TorSettingsContent,
};
use grim::modal::{Modal, ModalPosition, ModalState};
use grim::settings::{InterfaceSettingsContent, SettingsContent};
use grim::setup::{
    DandelionSetup, DandelionValue, P2PSetup, P2PValue, PeerType, PoolSetup, PoolValue, PortEdit,
    ServerSetup, ServerValue, StratumServerSetup, StratumSetup, StratumValue,
};

fn shown(id: &'static str) -> ModalState {
    let mut s = ModalState::default();
    Modal::new(id).show(&mut s);
    s
}

fn pool(v: &str) -> PoolSetup {
    PoolSetup {
        fee_base_edit: v.to_string(),
        reorg_period_edit: v.to_string(),
        pool_size_edit: v.to_string(),
        stempool_size_edit: v.to_string(),
        max_weight_edit: v.to_string(),
    }
}

#[test]
fn pool_values_accepted_close_modal() {
    let p = pool("500000");
    let mut s = shown(PoolSetup::FEE_BASE_MODAL);
    assert_eq!(p.on_fee_base_save(&mut s), Some(500000));
    assert!(s.modal.is_none());
    let mut s = shown(PoolSetup::REORG_PERIOD_MODAL);
    assert_eq!(p.on_reorg_period_save(&mut s), Some(500000));
    assert!(s.modal.is_none());
    let mut s = shown(PoolSetup::POOL_SIZE_MODAL);
    assert_eq!(p.on_pool_size_save(&mut s), Some(500000));
    let mut s = shown(PoolSetup::STEMPOOL_SIZE_MODAL);
    assert_eq!(p.on_stempool_size_save(&mut s), Some(500000));
    let mut s = shown(PoolSetup::MAX_WEIGHT_MODAL);
    assert_eq!(p.on_max_weight_save(&mut s), Some(500000));
    assert!(s.modal.is_none());
}

#[test]
fn rejected_value_keeps_modal() {
    let p = pool("12a");
    let mut s = shown(PoolSetup::FEE_BASE_MODAL);
    assert_eq!(p.on_fee_base_save(&mut s), None);
    assert_eq!(Modal::opened(&s), Some(PoolSetup::FEE_BASE_MODAL));
    let p = pool("4294967296");
    let mut s = shown(PoolSetup::REORG_PERIOD_MODAL);
    assert_eq!(p.on_reorg_period_save(&mut s), None);
    assert!(s.modal.is_some());
}

#[test]
fn dandelion_limits() {
    let d = DandelionSetup {
        epoch_edit: "600".to_string(),
        embargo_edit: "70000".to_string(),
        aggregation_edit: "30".to_string(),
        stem_prob_edit: "256".to_string(),
    };
    let mut s = shown(DandelionSetup::EPOCH_MODAL);
    assert_eq!(d.on_epoch_save(&mut s), Some(600));
    assert!(s.modal.is_none());
    let mut s = shown(DandelionSetup::EMBARGO_MODAL);
    assert_eq!(d.on_embargo_save(&mut s), None);
    assert!(s.modal.is_some());
    let mut s = shown(DandelionSetup::AGGREGATION_MODAL);
    assert_eq!(d.on_aggregation_save(&mut s), Some(30));
    let mut s = shown(DandelionSetup::STEM_PROBABILITY_MODAL);
    assert_eq!(d.on_stem_prob_save(&mut s), None);
    assert!(s.modal.is_some());
}

fn p2p() -> P2PSetup {
    P2PSetup {
        port_edit: "3414".to_string(),
        port_available_edit: false,
        is_port_available: false,
        is_correct_address_edit: false,
        peer_edit: "x".to_string(),
        default_main_seeds: vec!["main.seed".to_string()],
        default_test_seeds: vec!["test.seed".to_string()],
        ban_window_edit: "-10800".to_string(),
        max_inbound_count: "128".to_string(),
        max_outbound_count: "-1".to_string(),
        peers_reset: false,
    }
}

#[test]
fn p2p_port_flow() {
    let mut p = p2p();
    let mut s = ModalState::default();
    p.show_port_modal("13414".to_string(), "P2P port".to_string(), &mut s);
    assert_eq!(p.port_edit, "13414");
    let m = s.modal.as_ref().unwrap();
    assert_eq!(m.id, P2PSetup::PORT_MODAL);
    assert!(m.position == ModalPosition::CenterTop);
    assert_eq!(m.title.as_deref(), Some("P2P PORT"));
    assert_eq!(p.on_port_save(false, &mut s), None);
    assert!(!p.port_available_edit);
    assert!(s.modal.is_some());
    assert_eq!(p.on_port_save(true, &mut s), Some(13414));
    assert!(p.is_port_available);
    assert!(s.modal.is_none());
}

#[test]
fn p2p_peers_and_limits() {
    let mut p = p2p();
    let mut s = ModalState::default();
    p.show_peer_modal(PeerType::Denied, "Deny".to_string(), &mut s);
    assert_eq!(Modal::opened(&s), Some(P2PSetup::DENY_PEER_MODAL));
    assert!(p.peer_edit.is_empty());
    assert!(p.is_correct_address_edit);
    p.show_peer_modal(PeerType::DefaultSeed, "Seed".to_string(), &mut s);
    assert_eq!(Modal::opened(&s), Some(P2PSetup::CUSTOM_SEED_MODAL));
    p.peer_edit = "1.2.3.4:3414".to_string();
    assert_eq!(p.on_peer_save(false, &mut s), None);
    assert!(s.modal.is_some());
    assert_eq!(p.on_peer_save(true, &mut s), Some("1.2.3.4:3414".to_string()));
    assert!(s.modal.is_none());
    let mut s = shown(P2PSetup::BAN_WINDOW_MODAL);
    assert_eq!(p.on_ban_window_save(&mut s), Some(-10800));
    let mut s = shown(P2PSetup::MAX_INBOUND_MODAL);
    assert_eq!(p.on_max_inbound_save(&mut s), Some(128));
    let mut s = shown(P2PSetup::MAX_OUTBOUND_MODAL);
    assert_eq!(p.on_max_outbound_save(&mut s), None);
    assert_eq!(p.default_seeds(ChainTypes::Testnet)[0], "test.seed");
    assert_eq!(p.default_seeds(ChainTypes::Mainnet)[0], "main.seed");
    p.on_peers_reset();
    assert!(p.peers_reset);
}

fn port_edit() -> PortEdit {
    PortEdit { port_edit: String::new(), port_available_edit: true, is_port_available: false }
}

#[test]
fn server_setup_saves() {
    let srv = ServerSetup {
        api_port: port_edit(),
        api_secret_edit: "a".to_string(),
        foreign_api_secret_edit: "f".to_string(),
        ftl_edit: "70".to_string(),
    };
    let mut s = shown(ServerSetup::API_SECRET_MODAL);
    assert_eq!(srv.on_secret_save(ServerSetup::API_SECRET_MODAL, &mut s), (true, "a".to_string()));
    assert!(s.modal.is_none());
    let mut s = shown(ServerSetup::FOREIGN_API_SECRET_MODAL);
    assert_eq!(srv.on_secret_save(ServerSetup::FOREIGN_API_SECRET_MODAL, &mut s), (false, "f".to_string()));
    let mut s = shown(ServerSetup::FTL_MODAL);
    assert_eq!(srv.on_ftl_save(&mut s), Some(70));
}

#[test]
fn port_edit_flow() {
    let mut pe = port_edit();
    let mut s = ModalState::default();
    pe.show_modal(ServerSetup::API_PORT_MODAL, "3413".to_string(), "Port".to_string(), &mut s);
    assert!(!pe.port_available_edit);
    assert!(!pe.on_save(false, &mut s));
    assert!(s.modal.is_some());
    assert!(pe.on_save(true, &mut s));
    assert!(pe.is_port_available);
    assert!(s.modal.is_none());
}

fn stratum_server() -> StratumServerSetup {
    StratumServerSetup {
        stratum_port: PortEdit { port_edit: "3416".to_string(), port_available_edit: true, is_port_available: true },
        attempt_time_edit: "15".to_string(),
        min_share_diff_edit: "x".to_string(),
    }
}

#[test]
fn stratum_setup_wallet() {
    let st = stratum_server();
    let mut s = shown(StratumServerSetup::ATTEMPT_TIME_MODAL);
    assert_eq!(st.on_attempt_time_save(&mut s), Some(15));
    let mut s = shown(StratumServerSetup::MIN_SHARE_DIFF_MODAL);
    assert_eq!(st.on_min_share_diff_save(&mut s), None);
    let setup = StratumSetup::new(stratum_server(), Some(3), None);
    assert!(setup.wallet_id.is_none());
    assert!(setup.wallet_name.is_none());
    assert!(!setup.server_controls_shown(true));
    let mut setup = StratumSetup::new(stratum_server(), Some(3), Some("main".to_string()));
    assert_eq!(setup.wallet_id, Some(3));
    assert!(setup.server_controls_shown(true));
    assert!(!setup.server_controls_shown(false));
    let mut s = ModalState::default();
    setup.show_wallets_modal("Choose wallet".to_string(), &mut s);
    assert_eq!(Modal::opened(&s), Some(StratumSetup::WALLET_SELECTION_MODAL));
    setup.on_wallet_selected(5, Some("other".to_string()));
    assert_eq!(setup.wallet_id, Some(5));
    assert_eq!(setup.wallet_name.as_deref(), Some("other"));
}

#[test]
fn app_config_updates() {
    let mut c = AppConfig::default();
    assert!(c.chain_type() == ChainTypes::Mainnet);
    assert!(!c.autostart_node());
    assert!(!c.change_chain_type(&ChainTypes::Mainnet));
    assert!(c.change_chain_type(&ChainTypes::Testnet));
    assert!(c.chain_type() == ChainTypes::Testnet);
    c.toggle_node_autostart();
    assert!(c.autostart_node());
    c.toggle_show_wallets_at_dual_panel();
    assert!(c.show_wallets_at_dual_panel());
    c.toggle_show_connections_network_panel();
    assert!(c.show_connections_network_panel());
    c.toggle_show_connections_network_panel();
    assert!(!c.show_connections_network_panel());
    assert_eq!(AppConfig::FILE_NAME, "app.toml");
}

fn chars(s: &str) -> Vec<char> {
    s.chars().collect()
}

#[test]
fn proxy_url_formats() {
    let r: String = format_proxy_url(&chars("127.0.0.1:9050"), true).into_iter().collect();
    assert_eq!(r, "socks5://127.0.0.1:9050");
    let r: String = format_proxy_url(&chars("http://127.0.0.1:9050"), true).into_iter().collect();
    assert_eq!(r, "socks5://127.0.0.1:9050");
    let r: String = format_proxy_url(&chars("socks5://h:1"), false).into_iter().collect();
    assert_eq!(r, "http://h:1");
    let r: String = format_proxy_url(&chars("http://h:1"), false).into_iter().collect();
    assert_eq!(r, "http://h:1");
}

#[test]
fn network_proxy_save() {
    let mut c = NetworkSettingsContent::default();
    let mut s = shown(NetworkSettingsContent::PROXY_URL_EDIT_MODAL);
    c.proxy_url_edit = "  ".to_string();
    assert!(matches!(c.on_proxy_save(true, &mut s), ProxyChange::Clear));
    assert!(s.modal.is_none());
    let mut s = shown(NetworkSettingsContent::PROXY_URL_EDIT_MODAL);
    c.proxy_url_edit = " 127.0.0.1:9050 ".to_string();
    match c.on_proxy_save(true, &mut s) {
        ProxyChange::Save(u) => assert_eq!(u, "socks5://127.0.0.1:9050"),
        _ => panic!("expected a saved proxy"),
    }
    assert!(!c.proxy_url_error);
    assert!(s.modal.is_none());
    let mut s = shown(NetworkSettingsContent::PROXY_URL_EDIT_MODAL);
    c.proxy_url_edit = "a b".to_string();
    assert!(matches!(c.on_proxy_save(false, &mut s), ProxyChange::Invalid));
    assert!(c.proxy_url_error);
    assert!(s.modal.is_some());
}

#[test]
fn tor_proxy_save() {
    let mut t = TorSettingsContent { proxy_url_edit: "socks5://127.0.0.1:9050".to_string(), proxy_url_error: true };
    let mut s = shown("tor");
    match t.on_proxy_save(false, &mut s) {
        Some(TorProxy::SOCKS5(u)) => assert_eq!(u, "socks5://127.0.0.1:9050"),
        _ => panic!("expected socks proxy"),
    }
    assert!(!t.proxy_url_error);
    assert!(s.modal.is_none());
    t.proxy_url_edit = "http://127.0.0.1:8080".to_string();
    assert!(matches!(t.on_proxy_save(true, &mut s), Some(TorProxy::HTTP(_))));
    t.proxy_url_edit = "not a url".to_string();
    let mut s = shown("tor");
    assert!(t.on_proxy_save(true, &mut s).is_none());
    assert!(t.proxy_url_error);
    assert!(s.modal.is_some());
}

#[test]
fn external_connection_add() {
    let mut m = ExternalConnectionModal::new(None);
    assert!(m.first_draw);
    m.url_edit = "node.grin.example:3413".to_string();
    let mut s = shown(ExternalConnectionModal::NETWORK_ID);
    let c = m.on_add(&mut s).unwrap();
    assert_eq!(c.url, "https://node.grin.example:3413");
    assert_eq!(c.username.as_deref(), Some("grin"));
    assert!(c.secret.is_none());
    assert!(c.id.is_none());
    assert!(s.modal.is_none());
    assert!(m.url_edit.is_empty());

    let mut m = ExternalConnectionModal::new(Some(("http://127.0.0.1:3413".to_string(), Some("key".to_string()), 7)));
    let mut s = shown(ExternalConnectionModal::NETWORK_ID);
    let c = m.on_add(&mut s).unwrap();
    assert_eq!(c.url, "http://127.0.0.1:3413");
    assert_eq!(c.secret.as_deref(), Some("key"));
    assert_eq!(c.username.as_deref(), Some("key"));
    assert_eq!(c.id, Some(7));

    let mut m = ExternalConnectionModal::new(None);
    m.url_edit = "http://bad host".to_string();
    let mut s = shown(ExternalConnectionModal::NETWORK_ID);
    assert!(m.on_add(&mut s).is_none());
    assert!(m.url_error);
    assert!(s.modal.is_some());
}

#[test]
fn interface_locale() {
    let mut i = InterfaceSettingsContent::new(None, "en".to_string());
    assert_eq!(i.locale, "en");
    assert!(i.is_current("en"));
    assert!(!i.on_locale_click("en"));
    assert!(i.on_locale_click("ru"));
    assert_eq!(i.locale, "ru");
    let i = InterfaceSettingsContent::new(Some("de".to_string()), "en".to_string());
    assert_eq!(i.locale, "de");
    let c = SettingsContent::new(None, "fr".to_string());
    assert_eq!(c.interface_settings.locale, "fr");
    assert!(c.network_settings.proxy_url_edit.is_empty());
}

#[test]
fn law_proxy_url_names_scheme_example() {
    for p in ["h:1", "socks5://h:1", "http://h:1", "hthttp://tp://x"] {
        let s: String = format_proxy_url(&chars(p), true).into_iter().collect();
        assert!(s.contains("socks5://"));
        let h: String = format_proxy_url(&chars(p), false).into_iter().collect();
        assert!(h.contains("http://"));
    }
}

#[test]
fn value_modals_take_saved_values() {
    let mut p = pool("1");
    let mut s = ModalState::default();
    p.show_value_modal(PoolValue::MaxWeight, "40000".to_string(), "Change value".to_string(), &mut s);
    assert_eq!(p.max_weight_edit, "40000");
    assert_eq!(p.fee_base_edit, "1");
    let m = s.modal.as_ref().unwrap();
    assert_eq!(m.id, PoolSetup::MAX_WEIGHT_MODAL);
    assert!(m.position == ModalPosition::CenterTop);
    assert_eq!(m.title.as_deref(), Some("CHANGE VALUE"));
    let mut d = DandelionSetup {
        epoch_edit: String::new(),
        embargo_edit: String::new(),
        aggregation_edit: String::new(),
        stem_prob_edit: String::new(),
    };
    d.show_value_modal(DandelionValue::StemProbability, "90".to_string(), "t".to_string(), &mut s);
    assert_eq!(d.stem_prob_edit, "90");
    assert_eq!(Modal::opened(&s), Some(DandelionSetup::STEM_PROBABILITY_MODAL));
    let mut q = p2p();
    q.show_value_modal(P2PValue::MaxInbound, "64".to_string(), "t".to_string(), &mut s);
    assert_eq!(q.max_inbound_count, "64");
    assert_eq!(Modal::opened(&s), Some(P2PSetup::MAX_INBOUND_MODAL));
    let mut srv = ServerSetup {
        api_port: port_edit(),
        api_secret_edit: String::new(),
        foreign_api_secret_edit: String::new(),
        ftl_edit: String::new(),
    };
    srv.show_value_modal(ServerValue::ForeignApiSecret, "s".to_string(), "t".to_string(), &mut s);
    assert_eq!(srv.foreign_api_secret_edit, "s");
    assert_eq!(Modal::opened(&s), Some(ServerSetup::FOREIGN_API_SECRET_MODAL));
    let mut st = stratum_server();
    st.show_value_modal(StratumValue::MinShareDiff, "8".to_string(), "t".to_string(), &mut s);
    assert_eq!(st.min_share_diff_edit, "8");
    assert_eq!(Modal::opened(&s), Some(StratumServerSetup::MIN_SHARE_DIFF_MODAL));
}
