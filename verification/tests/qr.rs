use grim::qr::{
    decode_text, index_of, parse_qr_code, parse_ur_numbers, store_ur_part, ur_progress, PhraseSize,
    QrCreationState, QrScanResult, QrScanState,
};

fn words() -> Vec<String> {
    (0..2048).map(|i| format!("w{}", i)).collect()
}

fn parse(data: &[u8], address_valid: bool, checksum: u8) -> QrScanResult {
    let owned = words();
    let list: Vec<&str> = owned.iter().map(|w| w.as_str()).collect();
    parse_qr_code(&data.to_vec(), address_valid, checksum, &list)
}

#[test]
fn text_of_data() {
    assert_eq!(decode_text(b"hello"), "hello");
    assert_eq!(decode_text(&[0xff, 0xfe]), "");
}

#[test]
fn plain_text_is_trimmed() {
    match parse(b"  some text \n", false, 0) {
        QrScanResult::Text(t) => assert_eq!(t, "some text"),
        _ => panic!("expected text"),
    }
}

#[test]
fn address_needs_validity() {
    match parse(b"grin1abc", true, 0) {
        QrScanResult::Address(t) => assert_eq!(t, "grin1abc"),
        _ => panic!("expected address"),
    }
    assert!(matches!(parse(b"grin1abc", false, 0), QrScanResult::Text(_)));
}

#[test]
fn slatepack_message() {
    match parse(b"BEGINSLATEPACK. abc. ENDSLATEPACK.", false, 0) {
        QrScanResult::Slatepack(t) => assert_eq!(t, "BEGINSLATEPACK. abc. ENDSLATEPACK."),
        _ => panic!("expected slatepack"),
    }
}

#[test]
fn ur_part_numbers() {
    match parse(b"ur:bytes/3-10/lpamchcfatttcyclehgsdphdhgehfghkkk", false, 0) {
        QrScanResult::URPart(uri, index, total) => {
            assert_eq!(uri, "ur:bytes/3-10/lpamchcfatttcyclehgsdphdhgehfghkkk");
            assert_eq!(index, 2);
            assert_eq!(total, 10);
        },
        _ => panic!("expected UR part"),
    }
    let chars: Vec<char> = "ur:bytes/12-40/x".chars().collect();
    assert_eq!(parse_ur_numbers(&chars), Some((12, 40)));
    let chars: Vec<char> = "ur:bytes/abc".chars().collect();
    assert_eq!(parse_ur_numbers(&chars), None);
    let chars: Vec<char> = "a-b".chars().collect();
    assert_eq!(index_of(&chars, '-'), Some(1));
    assert_eq!(index_of(&chars, '/'), None);
}

#[test]
fn standard_seed_qr() {
    let digits = "000100020003000400050006000700080009001000112047";
    match parse(digits.as_bytes(), false, 0) {
        QrScanResult::SeedQR(p) => assert_eq!(p, "w1 w2 w3 w4 w5 w6 w7 w8 w9 w10 w11 w2047"),
        _ => panic!("expected seed"),
    }
    let bad = "000100020003000400050006000700080009001000112048";
    assert!(matches!(parse(bad.as_bytes(), false, 0), QrScanResult::Text(_)));
}

#[test]
fn compact_seed_qr() {
    match parse(&[0u8; 16], false, 0x37) {
        QrScanResult::SeedQR(p) => assert_eq!(p, "w0 w0 w0 w0 w0 w0 w0 w0 w0 w0 w0 w3"),
        _ => panic!("expected compact seed"),
    }
}

#[test]
fn scan_result_text() {
    assert_eq!(QrScanResult::Text("t".to_string()).text(), "t");
    assert_eq!(QrScanResult::URPart("u".to_string(), 0, 2).text(), "u");
}

#[test]
fn phrase_sizes() {
    assert_eq!(PhraseSize::Words12.value(), 12);
    assert_eq!(PhraseSize::Words24.value(), 24);
    assert!(matches!(PhraseSize::type_for_value(18), Some(PhraseSize::Words18)));
    assert!(PhraseSize::type_for_value(13).is_none());
    let p = PhraseSize::type_for_value(PhraseSize::Words21.value()).unwrap();
    assert_eq!(p.value(), 21);
}

#[test]
fn scan_states_start_empty() {
    let s = QrScanState::default();
    assert!(!s.image_processing);
    assert!(s.qr_scan_result.is_none());
    let c = QrCreationState::default();
    assert!(!c.creating);
    assert!(c.svg.is_none() && c.svg_list.is_none());
}

#[test]
fn ur_progress_counts_received() {
    assert_eq!(ur_progress(&None), 0);
    assert_eq!(ur_progress(&Some((vec![], 0))), 0);
    let data = vec!["a".to_string(), String::new(), "b".to_string()];
    assert_eq!(ur_progress(&Some((data, 3))), 66);
}

#[test]
fn ur_parts_stored() {
    let first = store_ur_part(&None, "p1".to_string(), 1, 2).unwrap();
    assert_eq!(first.1, 2);
    assert_eq!(first.0, vec![String::new(), "p1".to_string(), String::new()]);
    let again = store_ur_part(&Some(first.clone()), "p1".to_string(), 1, 2);
    assert!(again.is_none());
    let second = store_ur_part(&Some(first), "p0".to_string(), 0, 2).unwrap();
    assert_eq!(second.0, vec!["p0".to_string(), String::new(), "p1".to_string(), String::new()]);
    assert_eq!(ur_progress(&Some(second)), 100);
}

#[test]
fn law_all_parts_complete_example() {
    let data = vec!["a".to_string(), "b".to_string()];
    assert_eq!(ur_progress(&Some((data, 2))), 100);
}

#[test]
fn zero_ur_part_is_no_result() {
    let owned = words();
    let list: Vec<&str> = owned.iter().map(|w| w.as_str()).collect();
    assert!(grim::qr::scan_qr_code(&b"ur:bytes/0-3/abc".to_vec(), false, 0, &list).is_none());
    match grim::qr::scan_qr_code(&b"ur:bytes/1-3/abc".to_vec(), false, 0, &list) {
        Some(QrScanResult::URPart(_, 0, 3)) => {},
        _ => panic!("expected first part"),
    }
    assert!(matches!(grim::qr::scan_qr_code(&b"hello".to_vec(), false, 0, &list), Some(QrScanResult::Text(_))));
}

#[test]
fn message_split_into_parts() {
    let text = "m".repeat(333);
    let parts = grim::uniform::ur_parts_of(text.as_bytes(), 100).unwrap();
    let mut e = ur::Encoder::bytes(text.as_bytes(), 100).unwrap();
    assert_eq!(parts.len(), e.fragment_count());
    for p in &parts {
        assert_eq!(p, &e.next_part().unwrap());
    }
    assert!(grim::uniform::ur_parts_of(b"", 100).is_none());
    assert!(grim::uniform::ur_parts_of(b"x", 0).is_none());
}

#[test]
fn law_new_part_counts_once_example() {
    let data = vec!["a".to_string(), String::new(), String::new(), String::new()];
    assert_eq!(ur_progress(&Some((data.clone(), 4))), 25);
    let stored = store_ur_part(&Some((data, 4)), "b".to_string(), 2, 4).unwrap();
    assert_eq!(ur_progress(&Some(stored)), 50);
}
