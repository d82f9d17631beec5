use grim::accounts::Accounts;
use grim::colors::{use_dark, Color, Colors};
use grim::info::{info_strings, BuildInfo};
use grim::network::{NetworkMetrics, NetworkTabType, BLOCK_REWARD, YEARLY_SUPPLY};
use grim::network_tabs::{NetworkMetrics as MetricsTab, NetworkMining as MiningTab, NetworkNode as NodeTab};
use grim::views::{ProgressLoading, TitleContentType, TitleType};

#[test]
fn theme_choice() {
    assert!(!use_dark(None));
    assert!(!use_dark(Some(false)));
    assert!(use_dark(Some(true)));
}

#[test]
fn theme_colors() {
    assert!(Colors::blue(true) == Color { r: 0, g: 133, b: 255, a: 255 });
    assert!(Colors::blue(false) == Color { r: 0, g: 0x66, b: 0xE4, a: 255 });
    assert!(Colors::green(true) == Color { r: 0, g: 130, b: 0, a: 255 });
    assert!(Colors::red(true) == Color { r: 181, g: 0, b: 0, a: 255 });
    assert!(Colors::white_or_black(false, true) == Color { r: 12, g: 12, b: 12, a: 255 });
    assert!(Colors::white_or_black(true, true) == Color { r: 253, g: 253, b: 253, a: 255 });
    assert!(Colors::text(true, true) == Color { r: 80, g: 80, b: 80, a: 255 });
    assert!(Colors::text(true, false) == Color { r: 185, g: 185, b: 185, a: 255 });
    assert!(Colors::semi_transparent(true) == Color { r: 0, g: 0, b: 0, a: 170 });
    assert!(Colors::transparent() == Color { r: 0, g: 0, b: 0, a: 0 });
    assert!(Colors::fill(false) == Color { r: 244, g: 244, b: 244, a: 255 });
}

#[test]
fn build_information() {
    let info = BuildInfo {
        pkg_version: "0.2.4".to_string(),
        git_version: Some("abc123".to_string()),
        target: "x86_64-unknown-linux-gnu".to_string(),
        rustc_version: "rustc 1.80.0".to_string(),
        profile: "release".to_string(),
        features: "default".to_string(),
    };
    let (a, b) = info_strings(&info);
    assert_eq!(a, "This is Grim version 0.2.4 (git abc123), built for x86_64-unknown-linux-gnu by rustc 1.80.0.");
    assert_eq!(b, "Built with profile \"release\", features \"default\".");
    let info = BuildInfo { git_version: None, ..info };
    let (a, _) = info_strings(&info);
    assert_eq!(a, "This is Grim version 0.2.4, built for x86_64-unknown-linux-gnu by rustc 1.80.0.");
}

#[test]
fn emission_figures() {
    assert_eq!(BLOCK_REWARD, 60);
    assert_eq!(YEARLY_SUPPLY, 31557600);
    assert_eq!(NetworkMetrics::emission(1), (60, 52596000));
    assert_eq!(NetworkMetrics::emission(2_000_000), (120_000_000, 26));
}

#[test]
fn tab_keys() {
    assert_eq!(NetworkTabType::Node.name(), "network.node");
    assert_eq!(NetworkTabType::Metrics.title(), "network.metrics");
    assert_eq!(NetworkTabType::Settings.name(), "network.settings");
}

#[test]
fn tabs_with_titles() {
    assert_eq!(MetricsTab::new("Metrics").name(), "METRICS");
    assert_eq!(NodeTab::new("Integrated node".to_string()).name(), "Integrated node");
    assert!(MiningTab.get_type() == NetworkTabType::Mining);
}

#[test]
fn plain_contents() {
    assert_eq!(ProgressLoading::new("Loading".to_string()).text(), "Loading");
    let _ = Accounts::default();
    let t = TitleType::Dual(TitleContentType::Title("a".to_string()), TitleContentType::WithSubTitle("b".to_string(), "c".to_string(), true));
    assert!(matches!(t, TitleType::Dual(TitleContentType::Title(_), TitleContentType::WithSubTitle(_, _, true))));
}
