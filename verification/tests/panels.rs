use grim::connections::{
    bridge_after_pick, bridge_after_toggle, proxy_after_toggle, same_proxy, BridgeKind,
    ExternalConnectionModal, ProxyChoice, TorProxy,
};
use grim::content::Content;
use grim::mining::{
    count_text, ipv4_addresses, mining_tab_view, mining_view, peer_rounding, pool_text,
    split_address, stratum_addr_change, stratum_ip, workers_rounding, workers_shown, MiningView,
};
use grim::keyboard::{bottom_row, key_rows, Key, KeyboardContent, KeyboardLayout};
use grim::modal::{Modal, ModalState};
use grim::network::NetworkTabType;
use grim::network_panel::{
    node_content_view, node_controls, panel_layout, repaint_needed, NetworkPanel,
    NodeContentView, NodeControls, PanelAction, PanelEvent,
};
use grim::settings::startup_locale;

fn strings(v: &[&str]) -> Vec<String> {
    v.iter().map(|s| s.to_string()).collect()
}

#[test]
fn mining_view_follows_node_and_server() {
    assert_eq!(mining_view(false, true, false, true, false, false), MiningView::Disabled);
    assert_eq!(mining_view(true, false, true, true, false, false), MiningView::Loading);
    assert_eq!(mining_view(true, true, true, false, false, false), MiningView::NoAddresses);
    assert_eq!(mining_view(true, true, true, true, false, false), MiningView::Setup);
    assert_eq!(mining_view(true, true, true, true, false, true), MiningView::Starting);
    assert_eq!(mining_view(true, true, true, true, true, true), MiningView::Starting);
    assert_eq!(mining_view(true, true, true, true, true, false), MiningView::Stats);
}

#[test]
fn mining_tab_view_follows_server() {
    assert_eq!(mining_tab_view(true, true, true), MiningView::Loading);
    assert_eq!(mining_tab_view(false, false, true), MiningView::Loading);
    assert_eq!(mining_tab_view(false, true, false), MiningView::Setup);
    assert_eq!(mining_tab_view(false, true, true), MiningView::Stats);
}

#[test]
fn stratum_ip_prefers_saved_address() {
    let addrs = strings(&["192.168.1.5", "10.0.0.2"]);
    assert_eq!(stratum_ip(&addrs, "10.0.0.2"), Some("10.0.0.2".to_string()));
    assert_eq!(stratum_ip(&addrs, "127.0.0.1"), Some("192.168.1.5".to_string()));
    assert_eq!(stratum_ip(&vec![], "127.0.0.1"), None);
}

#[test]
fn ipv4_addresses_keeps_order() {
    let ips = vec![
        ("127.0.0.1".to_string(), true),
        ("::1".to_string(), false),
        ("10.0.0.2".to_string(), true),
    ];
    assert_eq!(ipv4_addresses(&ips), strings(&["127.0.0.1", "10.0.0.2"]));
    assert!(ipv4_addresses(&vec![]).is_empty());
}

#[test]
fn split_address_at_first_colon() {
    assert_eq!(split_address("127.0.0.1:3416"), ("127.0.0.1".to_string(), "3416".to_string()));
    assert_eq!(split_address("a:b:c"), ("a".to_string(), "b:c".to_string()));
}

#[test]
fn stratum_addr_change_only_when_changed() {
    assert_eq!(stratum_addr_change("10.0.0.2", "127.0.0.1", "3416"), Some("10.0.0.2:3416".to_string()));
    assert_eq!(stratum_addr_change("127.0.0.1", "127.0.0.1", "3416"), None);
}

#[test]
fn count_and_pool_texts() {
    assert_eq!(count_text(0), "-");
    assert_eq!(count_text(1234567), "1234567");
    assert_eq!(count_text(u64::MAX), u64::MAX.to_string());
    assert_eq!(pool_text(None), "0 (0)");
    assert_eq!(pool_text(Some((12, 30))), "12 (30)");
}

#[test]
fn peer_rounding_of_list() {
    assert_eq!(peer_rounding(0, 1), (true, false));
    assert_eq!(peer_rounding(0, 3), (true, false));
    assert_eq!(peer_rounding(1, 3), (false, false));
    assert_eq!(peer_rounding(2, 3), (false, true));
}

#[test]
fn panel_layout_with_and_without_connections() {
    let l = panel_layout(false, true);
    assert!(l.tab_title && l.connections_button && !l.panel_button && l.tabs_bar);
    assert!(l.node_content && l.node_divider && !l.connections_divider);
    let c = panel_layout(true, true);
    assert!(!c.tab_title && !c.tabs_bar && !c.node_content && c.connections_divider);
    let s = panel_layout(true, false);
    assert!(s.panel_button && !s.node_divider && !s.connections_divider);
}

#[test]
fn node_content_view_order() {
    assert_eq!(node_content_view(NetworkTabType::Settings, true, false, false, true, true), NodeContentView::Tab);
    assert_eq!(node_content_view(NetworkTabType::Node, true, false, false, false, false), NodeContentView::Error);
    assert_eq!(node_content_view(NetworkTabType::Node, false, false, true, false, false), NodeContentView::Disabled);
    assert_eq!(node_content_view(NetworkTabType::Mining, false, true, false, false, false), NodeContentView::Loading);
    assert_eq!(node_content_view(NetworkTabType::Mining, false, true, true, true, false), NodeContentView::Loading);
    assert_eq!(node_content_view(NetworkTabType::Metrics, false, true, true, false, false), NodeContentView::Tab);
}

#[test]
fn panel_step_answers_clicks() {
    let p = NetworkPanel::new(false);
    let (p, a) = p.step(PanelEvent::TabClicked(NetworkTabType::Mining));
    assert_eq!((p.tab, a), (NetworkTabType::Mining, PanelAction::Nothing));
    let (p, a) = p.step(PanelEvent::ConnectionsClicked);
    assert!(p.show_connections);
    assert_eq!(a, PanelAction::ShowConnections);
    let (q, a) = p.step(PanelEvent::ConnectionsClicked);
    assert_eq!((q, a), (p, PanelAction::Nothing));
    let (q, a) = p.step(PanelEvent::PanelClicked);
    assert_eq!((q, a), (p, PanelAction::TogglePanel));
}

#[test]
fn tab_click_law_example() {
    let p = NetworkPanel::new(true);
    let (once, _) = p.step(PanelEvent::TabClicked(NetworkTabType::Settings));
    let (twice, a) = once.step(PanelEvent::TabClicked(NetworkTabType::Settings));
    assert_eq!(once.tab, NetworkTabType::Settings);
    assert_eq!((twice, a), (once, PanelAction::Nothing));
}

#[test]
fn repaint_and_node_controls() {
    assert!(repaint_needed(true, false, true));
    assert!(repaint_needed(false, true, true));
    assert!(!repaint_needed(false, false, true));
    assert!(!repaint_needed(true, true, false));
    assert_eq!(node_controls(false, true, false, true), NodeControls::Loading);
    assert_eq!(node_controls(false, false, false, true), NodeControls::StopRestart);
    assert_eq!(node_controls(false, false, false, false), NodeControls::Enable);
}

fn is_socks(p: &Option<TorProxy>, url: &str) -> bool {
    matches!(p, Some(TorProxy::SOCKS5(u)) if u == url)
}

#[test]
fn proxy_choices_save_only_changes() {
    let socks = TorProxy::SOCKS5("socks5://127.0.0.1:9050".to_string());
    let http = TorProxy::HTTP("http://127.0.0.1:8080".to_string());
    let (p, save) = proxy_after_toggle(&None, ProxyChoice::Proxy, "socks5://127.0.0.1:9150", &socks, &http);
    assert!(is_socks(&p, "socks5://127.0.0.1:9150") && save);
    let (q, save) = proxy_after_toggle(&p, ProxyChoice::Proxy, "socks5://127.0.0.1:9150", &socks, &http);
    assert!(same_proxy(&q, &p) && !save);
    let (h, save) = proxy_after_toggle(&p, ProxyChoice::Http, "x", &socks, &http);
    assert!(matches!(&h, Some(TorProxy::HTTP(u)) if u == "http://127.0.0.1:8080") && save);
    let (n, save) = proxy_after_toggle(&None, ProxyChoice::Http, "x", &socks, &http);
    assert!(n.is_none() && !save);
    let (d, save) = proxy_after_toggle(&h, ProxyChoice::Default, "x", &socks, &http);
    assert!(d.is_none() && save);
    let (k, save) = proxy_after_toggle(&h, ProxyChoice::Kept, "x", &socks, &http);
    assert!(same_proxy(&k, &h) && !save);
}

#[test]
fn bridge_toggle_and_pick() {
    assert_eq!(bridge_after_toggle(None), Some(BridgeKind::Webtunnel));
    assert_eq!(bridge_after_toggle(Some(BridgeKind::Obfs4)), None);
    assert_eq!(bridge_after_pick(BridgeKind::Obfs4, BridgeKind::Obfs4), None);
    assert_eq!(bridge_after_pick(BridgeKind::Obfs4, BridgeKind::Snowflake), Some(BridgeKind::Snowflake));
}

#[test]
fn shared_scan_adds_connection_and_closes() {
    let modal = ExternalConnectionModal::new(None);
    let mut state = ModalState::default();
    Modal::new(ExternalConnectionModal::NETWORK_ID).show(&mut state);
    Modal::disable_shown_closing(&mut state);
    assert!(!Modal::opened_closeable(&state));
    let shared = Some(("http://node:3413".to_string(), "grin".to_string(), "s3cret".to_string()));
    let c = modal.on_shared_scan(shared, &mut state).unwrap();
    assert_eq!(c.url, "http://node:3413");
    assert_eq!(c.username, Some("grin".to_string()));
    assert_eq!(c.secret, Some("s3cret".to_string()));
    assert_eq!(c.id, None);
    assert!(state.modal.is_none());
}

#[test]
fn other_scan_enables_closing() {
    let modal = ExternalConnectionModal::new(None);
    let mut state = ModalState::default();
    Modal::new(ExternalConnectionModal::NETWORK_ID).show(&mut state);
    Modal::disable_shown_closing(&mut state);
    assert!(modal.on_shared_scan(None, &mut state).is_none());
    assert_eq!(Modal::opened(&state), Some(ExternalConnectionModal::NETWORK_ID));
    assert!(Modal::opened_closeable(&state));
}

#[test]
fn content_back_then_exit() {
    let mut state = ModalState::default();
    Modal::new("settings_modal").show(&mut state);
    assert!(!Content::on_back(&mut state));
    assert!(state.modal.is_none());
    assert!(Content::on_back(&mut state));
    Content::on_wallets_back(false, "Exit".to_string(), &mut state);
    assert!(state.modal.is_none());
    Content::on_wallets_back(true, "Exit".to_string(), &mut state);
    assert_eq!(Modal::opened(&state), Some(Content::EXIT_CONFIRMATION_MODAL));
    Modal::disable_shown_closing(&mut state);
    assert!(!Content::on_back(&mut state));
    assert_eq!(Modal::opened(&state), Some(Content::EXIT_CONFIRMATION_MODAL));
}

#[test]
fn startup_locale_choice() {
    let available = strings(&["en", "fr"]);
    assert_eq!(startup_locale(Some("fr-FR".to_string()), &available), Some("fr".to_string()));
    assert_eq!(startup_locale(Some("de-DE".to_string()), &available), None);
    assert_eq!(startup_locale(Some("fr".to_string()), &available), Some("en".to_string()));
    assert_eq!(startup_locale(None, &available), Some("en".to_string()));
    assert_eq!(startup_locale(None, &strings(&["fr"])), None);
}

#[test]
fn workers_rounding_of_list() {
    assert_eq!(workers_rounding(0, 1), (true, true));
    assert_eq!(workers_rounding(0, 3), (true, false));
    assert_eq!(workers_rounding(1, 3), (false, false));
    assert_eq!(workers_rounding(2, 3), (false, true));
    assert!(workers_shown(2, 1));
    assert!(!workers_shown(0, 1));
    assert!(!workers_shown(2, 0));
}

fn layout_keys_of(layout: &KeyboardLayout) -> Vec<KeyboardLayout> {
    let mut targets = vec![];
    for row in key_rows(layout) {
        for k in row {
            if let Key::Layout(l) = k {
                targets.push(l);
            }
        }
    }
    for k in bottom_row(layout) {
        if let Key::Layout(l) = k {
            targets.push(l);
        }
    }
    targets
}

#[test]
fn numbers_layout_law_example() {
    let mut k = KeyboardContent::default();
    k.setup_layout(true);
    assert!(k.state.layout == KeyboardLayout::NUMBERS);
    assert!(layout_keys_of(&KeyboardLayout::NUMBERS).is_empty());
    k.setup_layout(false);
    assert!(k.state.layout == KeyboardLayout::TEXT);
    let to = layout_keys_of(&KeyboardLayout::TEXT);
    assert!(to.len() == 1 && to[0] == KeyboardLayout::SYMBOLS);
    k.switch_layout(KeyboardLayout::SYMBOLS);
    let back = layout_keys_of(&KeyboardLayout::SYMBOLS);
    assert!(back.len() == 1 && back[0] == KeyboardLayout::TEXT);
    k.setup_layout(false);
    assert!(k.state.layout == KeyboardLayout::SYMBOLS);
}

#[test]
fn closeable_follows_last_change_example() {
    let m = Modal::new("m");
    assert!(m.is_closeable());
    let mut m = m.closeable(false);
    assert!(!m.is_closeable());
    m.enable_closing();
    assert!(m.is_closeable());
    m.disable_closing();
    assert!(!m.is_closeable());
    let m = m.closeable(true);
    assert!(m.is_closeable());
    assert_eq!(m.id, "m");
}
