use grim::qr_image::{
    animated_svg_list, push_decimal, qr_to_image_data, qr_to_svg, text_svg, QrCodeContent,
};
use grim::uniform::decode_ur_parts;
use qrcodegen::{QrCode, QrCodeEcc};

fn expected_svg(qr: &QrCode, border: i32) -> String {
    let dimension = qr.size() + border * 2;
    let mut result = String::new();
    result += "<?xml version=\"1.0\" encoding=\"UTF-8\"?>\n";
    result += "<!DOCTYPE svg PUBLIC \"-//W3C//DTD SVG 1.1//EN\" \"http://www.w3.org/Graphics/SVG/1.1/DTD/svg11.dtd\">\n";
    result += &format!(
        "<svg xmlns=\"http://www.w3.org/2000/svg\" version=\"1.1\" viewBox=\"0 0 {0} {0}\" stroke=\"none\">\n",
        dimension
    );
    result += "\t<rect width=\"100%\" height=\"100%\" fill=\"#FFFFFF\"/>\n";
    result += "\t<path d=\"";
    for y in 0..qr.size() {
        for x in 0..qr.size() {
            if qr.get_module(x, y) {
                if x != 0 || y != 0 {
                    result += " ";
                }
                result += &format!("M{},{}h1v1h-1z", x + border, y + border);
            }
        }
    }
    result += "\" fill=\"#000000\"/>\n";
    result += "</svg>\n";
    result
}

fn expected_raster(qr: &QrCode, size: usize) -> Option<Vec<u8>> {
    if size.checked_mul(size).is_none() {
        return None;
    }
    let s = qr.size();
    let point = size / (s as usize + 2);
    if point == 0 {
        return None;
    }
    let margin = (size - point * s as usize) / 2;
    let mut img = vec![255u8; size * size];
    for i in 0..s {
        for j in 0..s {
            if qr.get_module(i, j) {
                let x = i as usize * point + margin;
                let y = j as usize * point + margin;
                for row in y..y + point {
                    for col in x..x + point {
                        img[row * size + col] = 0;
                    }
                }
            }
        }
    }
    Some(img)
}

#[test]
fn decimal_texts() {
    let mut s = String::new();
    push_decimal(&mut s, 0);
    push_decimal(&mut s, -7);
    push_decimal(&mut s, 1234);
    push_decimal(&mut s, i64::MIN);
    assert_eq!(s, format!("0-71234{}", i64::MIN));
}

#[test]
fn svg_of_code() {
    let qr = QrCode::encode_text("grin1qqq", QrCodeEcc::Low).unwrap();
    assert_eq!(qr_to_svg(&qr, 0), expected_svg(&qr, 0));
    assert_eq!(qr_to_svg(&qr, 4), expected_svg(&qr, 4));
    assert_eq!(qr_to_svg(&qr, -2), expected_svg(&qr, -2));
    assert!(qr_to_svg(&qr, 0).contains("viewBox=\"0 0 21 21\""));
}

#[test]
fn svg_bytes_of_text() {
    let qr = QrCode::encode_text("hello", QrCodeEcc::Low).unwrap();
    assert_eq!(text_svg("hello"), Some(expected_svg(&qr, 0).into_bytes()));
    let long = "x".repeat(5000);
    assert_eq!(text_svg(&long), None);
}

#[test]
fn raster_of_code() {
    let qr = QrCode::encode_text("raster", QrCodeEcc::Low).unwrap();
    let img = qr_to_image_data(&qr, 512).unwrap();
    assert_eq!(img.len(), 512 * 512);
    assert_eq!(Some(img), expected_raster(&qr, 512));
    assert_eq!(qr_to_image_data(&qr, 22), None);
    assert_eq!(qr_to_image_data(&qr, 23), expected_raster(&qr, 23));
    assert!(qr_to_image_data(&qr, usize::MAX).is_none());
}

#[test]
fn animated_frames_join_back() {
    let text = "BEGINSLATEPACK. ".to_string() + &"abcdefgh".repeat(60) + " ENDSLATEPACK.";
    let frames = animated_svg_list(&text).unwrap();
    let mut encoder = ur::Encoder::bytes(text.as_bytes(), 100).unwrap();
    assert_eq!(frames.len(), encoder.fragment_count());
    let mut parts = vec![];
    for frame in &frames {
        let part = encoder.next_part().unwrap();
        let qr = QrCode::encode_text(&part, QrCodeEcc::Low).unwrap();
        assert_eq!(frame, &expected_svg(&qr, 0).into_bytes());
        parts.push(part);
    }
    assert_eq!(decode_ur_parts(&parts), Some(text.as_bytes().to_vec()));
}

#[test]
fn incomplete_parts_give_nothing() {
    let text = "q".repeat(500);
    let mut encoder = ur::Encoder::bytes(text.as_bytes(), 100).unwrap();
    let first = encoder.next_part().unwrap();
    assert_eq!(decode_ur_parts(&vec![first.clone()]), None);
    assert_eq!(decode_ur_parts(&vec![String::new(), "garbage".to_string(), first]), None);
    assert_eq!(decode_ur_parts(&vec![]), None);
}

#[test]
fn animation_frames_cycle() {
    let mut c = QrCodeContent::new("t".to_string(), true);
    assert_eq!(c.frame_index(1000, 3), 0);
    assert_eq!(c.animated_index, None);
    assert_eq!(c.frame_index(1050, 3), 0);
    assert_eq!(c.frame_index(1101, 3), 0);
    assert_eq!(c.animated_index, Some(0));
    assert_eq!(c.frame_index(1202, 3), 1);
    assert_eq!(c.frame_index(1303, 3), 2);
    assert_eq!(c.frame_index(1404, 3), 0);
    assert_eq!(c.frame_index(1405, 3), 0);
}
