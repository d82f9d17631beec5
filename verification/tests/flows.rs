use grim::content::{Content, ExitAction};
use grim::edit::TextEdit;
use grim::file_pick::{FileParse, FilePickContent, FilePickContentType};
use grim::modal::{Modal, ModalState};
use grim::qr::{parse_qr_code, QrScanResult, QrScanState};
use grim::scan::{is_new_scan, on_message_result, on_scan_result};

#[test]
fn exit_without_node() {
    let mut c = Content::new(false);
    assert!(!c.exit_allowed);
    let mut s = ModalState::default();
    Content::show_exit_modal("Confirmation".to_string(), &mut s);
    assert_eq!(Modal::opened(&s), Some(Content::EXIT_CONFIRMATION_MODAL));
    assert!(c.on_exit_confirmed(false, "Exit".to_string(), &mut s) == ExitAction::Exit);
    assert!(c.exit_allowed);
    assert!(s.modal.is_none());
}

#[test]
fn exit_waits_for_node() {
    let mut c = Content::new(false);
    let mut s = ModalState::default();
    Content::show_exit_modal("Confirmation".to_string(), &mut s);
    assert!(c.on_exit_confirmed(true, "Exit".to_string(), &mut s) == ExitAction::StopNode);
    assert!(c.show_exit_progress);
    assert!(!Modal::opened_closeable(&s));
    assert_eq!(s.modal.as_ref().unwrap().title.as_deref(), Some("EXIT"));
    assert!(!Modal::on_back(&mut s));
    assert!(s.modal.is_some());
    assert!(c.on_exit_progress(true, &mut s) == ExitAction::Stay);
    assert!(!c.exit_allowed);
    assert!(c.on_exit_progress(false, &mut s) == ExitAction::Exit);
    assert!(c.exit_allowed);
    assert!(s.modal.is_none());
}

#[test]
fn first_draw_modals() {
    let mut c = Content::new(true);
    assert!(c.exit_allowed);
    let mut s = ModalState::default();
    c.on_first_draw(true, true, "Crash report".to_string(), "Node".to_string(), &mut s);
    assert_eq!(Modal::opened(&s), Some(Content::CRASH_REPORT_MODAL));
    assert!(!Modal::opened_closeable(&s));
    let mut s2 = ModalState::default();
    c.on_first_draw(true, true, "Crash report".to_string(), "Node".to_string(), &mut s2);
    assert!(s2.modal.is_none());
    let mut c = Content::new(false);
    c.on_first_draw(false, true, "Crash report".to_string(), "Node".to_string(), &mut s2);
    assert_eq!(Modal::opened(&s2), Some(Content::ANDROID_INTEGRATED_NODE_WARNING_MODAL));
    assert_eq!(c.modal_ids().len(), 4);
    c.toggle_network_panel();
    assert!(c.is_network_panel_open());
}

#[test]
fn text_edit_options() {
    let t = TextEdit::new(egui::Id::new("amount"), false).h_center().numeric().copy().paste().scan_qr().focus(false);
    assert!(t.h_center && t.numeric && t.copy && t.paste && t.scan_qr && !t.scan_pressed);
    assert!(!t.focus && !t.password && !t.no_soft_keyboard);
    let mut t = TextEdit::new(egui::Id::new("pass"), true).password().no_soft_keyboard();
    assert!(t.password && t.no_soft_keyboard && t.focus);
    t.focus_request();
    assert!(t.focus_request);
}

#[test]
fn file_pick_flow() {
    let mut f = FilePickContent::new(FilePickContentType::Button);
    assert!(f.parse_file && !f.active);
    f.set_active(true);
    assert!(f.active);
    assert!(f.on_button_pick("") == FileParse::Wait);
    assert!(f.file_picking);
    assert!(f.on_picker_answer(None) == FileParse::Wait);
    assert!(f.on_picker_answer(Some("/tmp/a.txt".to_string())) == FileParse::Text);
    assert!(!f.file_picking && f.file_parsing);
    assert!(f.take_result().is_none());
    f.on_text_read(None);
    assert_eq!(f.take_result(), Some(String::new()));
    assert!(!f.file_parsing);
    assert!(f.on_file_pick("/tmp/b.png") == FileParse::Image);
    assert!(f.on_file_pick("/tmp/b.gif") == FileParse::Gif);
    let mut g = FilePickContent::new(FilePickContentType::Tab).no_parse();
    assert!(g.on_button_pick("/tmp/x.txt") == FileParse::Handover);
    assert!(g.on_file_pick("/tmp/x.txt") == FileParse::Skip);
}

fn ur_parts(text: &str) -> Vec<String> {
    let mut e = ur::Encoder::bytes(text.as_bytes(), 100).unwrap();
    (0..e.fragment_count()).map(|_| e.next_part().unwrap()).collect()
}

#[test]
fn law_emitted_part_numbers_example() {
    let parts = ur_parts(&"z".repeat(250));
    let words: Vec<&str> = vec![];
    for (i, p) in parts.iter().enumerate() {
        match parse_qr_code(&p.as_bytes().to_vec(), false, 0, &words) {
            QrScanResult::URPart(uri, index, total) => {
                assert_eq!(&uri, p);
                assert_eq!(index, i);
                assert_eq!(total, parts.len());
            },
            _ => panic!("expected UR part"),
        }
    }
}

#[test]
fn scanning_collects_parts() {
    let text = "w".repeat(250);
    let parts = ur_parts(&text);
    let words: Vec<&str> = vec![];
    let mut ur_data = None;
    let mut state = QrScanState::default();
    let mut message = None;
    for p in &parts {
        state.image_processing = true;
        let res = parse_qr_code(&p.as_bytes().to_vec(), false, 0, &words);
        message = on_scan_result(&mut ur_data, &mut state, res);
        if message.is_some() {
            break;
        }
        assert!(!state.image_processing);
    }
    let message = message.unwrap();
    assert_eq!(message, text.as_bytes().to_vec());
    assert!(state.image_processing);
    let res = parse_qr_code(&message, false, 0, &words);
    on_message_result(&mut ur_data, &mut state, res);
    assert!(ur_data.is_none());
    assert_eq!(state.qr_scan_result.as_ref().unwrap().text(), text);
}

#[test]
fn repeated_part_is_ignored() {
    let parts = ur_parts(&"v".repeat(250));
    let words: Vec<&str> = vec![];
    let mut ur_data = None;
    let mut state = QrScanState::default();
    let res = parse_qr_code(&parts[0].as_bytes().to_vec(), false, 0, &words);
    assert!(on_scan_result(&mut ur_data, &mut state, res).is_none());
    let stored = ur_data.clone();
    let res = parse_qr_code(&parts[0].as_bytes().to_vec(), false, 0, &words);
    assert!(on_scan_result(&mut ur_data, &mut state, res).is_none());
    assert_eq!(ur_data, stored);
}

#[test]
fn plain_result_stops_scanning() {
    let mut ur_data = Some((vec!["a".to_string()], 2));
    let mut state = QrScanState::default();
    state.image_processing = true;
    let r = on_scan_result(&mut ur_data, &mut state, QrScanResult::Text("hi".to_string()));
    assert!(r.is_none());
    assert!(ur_data.is_none());
    assert!(state.image_processing);
    assert!(!is_new_scan(b"hi", "hi", &state));
    assert!(is_new_scan(b"ho", "ho", &state));
    assert!(!is_new_scan(b"", "", &state));
    assert!(is_new_scan(b"x", "x", &QrScanState::default()));
}

#[test]
fn text_edit_option_builders() {
    let o = grim::edit::TextEditOptions::new(egui::Id::new("o")).h_center().no_focus().password().copy().paste().scan_qr();
    assert!(o.h_center && !o.focus && o.password && o.copy && o.paste && o.scan_qr && !o.scan_pressed);
    let d = grim::edit::TextEditOptions::new(egui::Id::new("d"));
    assert!(d.focus && !d.h_center && !d.copy);
}
