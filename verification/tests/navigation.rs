use grim::modal::{Modal, ModalPosition, ModalState};
use grim::navigator::Navigator as AppNavigator;
use grim::screens::{Accounts, Navigator, ScreenId, ScreenStack, Wallets};

#[test]
fn new_modal_defaults() {
    let m = Modal::new("id");
    assert_eq!(m.id, "id");
    assert!(m.position == ModalPosition::Center);
    assert!(m.closeable);
    assert!(m.title.is_none());
    assert!(m.first_draw);
}

#[test]
fn builder_sets_fields() {
    let m = Modal::new("x").position(ModalPosition::CenterTop).closeable(false).title("Add peer".to_string());
    assert!(m.position == ModalPosition::CenterTop);
    assert!(!m.is_closeable());
    assert_eq!(m.title.as_deref(), Some("ADD PEER"));
}

#[test]
fn law_shown_is_opened_example() {
    let mut state = ModalState::default();
    assert_eq!(Modal::opened(&state), None);
    Modal::new("exit").show(&mut state);
    assert_eq!(Modal::opened(&state), Some("exit"));
    assert!(Modal::opened_closeable(&state));
    assert!(Modal::first_draw(&state));
    Modal::finish_first_draw(&mut state);
    assert!(!Modal::first_draw(&state));
    Modal::close(&mut state);
    assert_eq!(Modal::opened(&state), None);
}

#[test]
fn law_back_closes_closeable_example() {
    let mut state = ModalState::default();
    Modal::new("a").show(&mut state);
    assert!(!Modal::on_back(&mut state));
    assert!(state.modal.is_none());
    assert!(Modal::on_back(&mut state));
    assert!(state.modal.is_none());
}

#[test]
fn law_back_keeps_locked_example() {
    let mut state = ModalState::default();
    let mut m = Modal::new("a");
    m.disable_closing();
    m.show(&mut state);
    assert!(!Modal::opened_closeable(&state));
    assert!(!Modal::on_back(&mut state));
    assert!(!Modal::on_back(&mut state));
    assert_eq!(Modal::opened(&state), Some("a"));
    state.modal.as_mut().unwrap().enable_closing();
    assert!(!Modal::on_back(&mut state));
    assert!(state.modal.is_none());
}

#[test]
fn title_and_position_of_shown_modal() {
    let mut state = ModalState::default();
    Modal::set_title(&mut state, "none".to_string());
    assert!(state.modal.is_none());
    Modal::new("a").show(&mut state);
    Modal::set_title(&mut state, "Wallets".to_string());
    Modal::change_position(&mut state, ModalPosition::CenterTop);
    let m = state.modal.as_ref().unwrap();
    assert_eq!(m.title.as_deref(), Some("WALLETS"));
    assert!(m.position == ModalPosition::CenterTop);
    assert_eq!(m.id, "a");
}

#[test]
fn modal_ids_of_container() {
    let mut state = ModalState::default();
    let ids = vec!["p2p_port", "fee_base"];
    assert!(!state.is_opened_in(&ids));
    Modal::new("fee_base").show(&mut state);
    assert!(state.is_opened_in(&ids));
    Modal::new("other").show(&mut state);
    assert!(!state.is_opened_in(&ids));
}

#[test]
fn screen_stack_order() {
    let mut s = ScreenStack::new();
    assert!(s.last().is_none());
    s.push(ScreenId::Account);
    s.push(ScreenId::Root);
    assert!(s.last() == Some(ScreenId::Root));
    assert!(s.has_several());
    s.push(ScreenId::Account);
    assert!(s.last() == Some(ScreenId::Account));
    s.pop_last();
    assert!(s.last() == Some(ScreenId::Root));
    assert!(!s.has_several());
    s.pop_last();
    assert!(s.last() == Some(ScreenId::Root));
    s.reset(ScreenId::Accounts);
    assert!(s.last() == Some(ScreenId::Accounts));
}

#[test]
fn to_lower_ranked_screen_is_current() {
    let mut n = Navigator::default();
    n.init(ScreenId::Account);
    n.to(ScreenId::Root);
    assert!(n.is_current(&ScreenId::Root));
    n.back();
    assert!(n.is_current(&ScreenId::Account));
    let mut a = AppNavigator::default();
    a.init(ScreenId::Account);
    a.to(ScreenId::Root);
    assert!(a.is_current(&ScreenId::Root));
    a.back("Exit".to_string());
    assert!(a.is_current(&ScreenId::Account));
    assert_eq!(a.is_modal_open(), None);
}

#[test]
fn law_side_panel_parity_example() {
    let mut n = Navigator::default();
    for k in 1..6 {
        n.toggle_side_panel();
        assert_eq!(n.is_side_panel_open(), k % 2 == 1);
    }
}

#[test]
fn law_init_and_to_make_current() {
    let mut n = Navigator::default();
    n.init(ScreenId::Root);
    assert!(n.is_current(&ScreenId::Root));
    n.to(ScreenId::Accounts);
    assert!(n.is_current(&ScreenId::Accounts));
    n.to(ScreenId::Account);
    assert!(n.is_current(&ScreenId::Account));
}

#[test]
fn law_back_undoes_to_example() {
    let mut n = Navigator::default();
    n.init(ScreenId::Root);
    n.to(ScreenId::Accounts);
    n.back();
    assert!(n.is_current(&ScreenId::Root));
    n.back();
    assert!(n.is_current(&ScreenId::Root));
}

#[test]
fn side_panel_toggles() {
    let mut n = Navigator::default();
    assert!(!n.is_side_panel_open());
    n.toggle_side_panel();
    assert!(n.is_side_panel_open());
    n.toggle_side_panel();
    assert!(!n.is_side_panel_open());
}

#[test]
fn screens_identity() {
    assert!(Accounts.id() == ScreenId::Accounts);
    assert_eq!(Wallets.name(), "wallets");
}

#[test]
fn app_navigator_back_order() {
    let mut n = AppNavigator::default();
    n.init(ScreenId::Root);
    n.to(ScreenId::Account);
    n.show_modal(Modal::new("m"));
    assert_eq!(n.is_modal_open(), Some("m"));
    n.back("Exit".to_string());
    assert_eq!(n.is_modal_open(), None);
    assert!(n.is_current(&ScreenId::Account));
    n.back("Exit".to_string());
    assert!(n.is_current(&ScreenId::Root));
    assert_eq!(n.is_modal_open(), None);
}

#[test]
fn law_exit_modal_closes_on_back_example() {
    let mut n = AppNavigator::default();
    n.init(ScreenId::Root);
    n.back("Exit".to_string());
    assert_eq!(n.is_modal_open(), Some(AppNavigator::EXIT_MODAL));
    assert!(n.is_current(&ScreenId::Root));
    n.back("Exit".to_string());
    assert_eq!(n.is_modal_open(), None);
    assert!(n.is_current(&ScreenId::Root));
}

#[test]
fn locked_modal_blocks_back() {
    let mut n = AppNavigator::default();
    n.init(ScreenId::Root);
    n.to(ScreenId::Accounts);
    n.show_modal(Modal::new("locked").closeable(false));
    n.back("Exit".to_string());
    assert_eq!(n.is_modal_open(), Some("locked"));
    assert!(n.is_current(&ScreenId::Accounts));
    n.show_exit_modal("Quit".to_string());
    assert_eq!(n.is_modal_open(), Some("exit"));
    n.toggle_side_panel();
    assert!(n.is_side_panel_open());
}
