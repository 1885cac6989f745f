use clipboard_hub::picture::{encode_image, holds_pixels, png_to_payload, RawImage};
use clipboard_hub::snapshot::{
    frame_message, get_clipboard_content, ClipboardSnapshot, ContentType,
};

#[test]
fn kind_names() {
    assert_eq!(ContentType::Text.name(), "text");
    assert_eq!(ContentType::Image.name(), "image");
    assert_eq!(ContentType::Empty.name(), "empty");
}

#[test]
fn snapshots_are_equal_iff_kind_and_payload_are() {
    let a = ClipboardSnapshot::text("x".to_string());
    assert!(a == ClipboardSnapshot::text("x".to_string()));
    assert!(a != ClipboardSnapshot::text("y".to_string()));
    assert!(a != ClipboardSnapshot::image("x".to_string()));
    assert!(ClipboardSnapshot::empty() == ClipboardSnapshot::empty());
    assert!(ClipboardSnapshot::empty() != ClipboardSnapshot::text(String::new()));
}

#[test]
fn constructors_set_kind_and_payload() {
    let t = ClipboardSnapshot::text("abc".to_string());
    assert_eq!(t.content_type, ContentType::Text);
    assert_eq!(t.payload, "abc");
    let i = ClipboardSnapshot::image("QUJD".to_string());
    assert_eq!(i.content_type, ContentType::Image);
    assert_eq!(i.payload, "QUJD");
    let e = ClipboardSnapshot::empty();
    assert_eq!(e.content_type, ContentType::Empty);
    assert_eq!(e.payload, "");
}

#[test]
fn frame_puts_type_before_data() {
    assert_eq!(frame_message(ContentType::Text, "\"hello\""), "{\"type\":\"text\",\"data\":\"hello\"}");
    assert_eq!(frame_message(ContentType::Image, "\"aGk=\""), "{\"type\":\"image\",\"data\":\"aGk=\"}");
    assert_eq!(frame_message(ContentType::Empty, "\"\""), "{\"type\":\"empty\",\"data\":\"\"}");
}

#[test]
fn message_of_plain_text() {
    let snapshot = ClipboardSnapshot::text("hello".to_string());
    assert_eq!(snapshot.to_message(), "{\"type\":\"text\",\"data\":\"hello\"}");
}

#[test]
fn message_escapes_the_payload() {
    let snapshot = ClipboardSnapshot::text("say \"hi\"\n\\ \t\u{1}".to_string());
    assert_eq!(
        snapshot.to_message(),
        "{\"type\":\"text\",\"data\":\"say \\\"hi\\\"\\n\\\\ \\t\\u0001\"}"
    );
}

#[test]
fn every_short_escape_is_used() {
    let snapshot = ClipboardSnapshot::text("\u{8}\t\n\u{c}\r\"\\".to_string());
    assert_eq!(
        snapshot.to_message(),
        "{\"type\":\"text\",\"data\":\"\\b\\t\\n\\f\\r\\\"\\\\\"}"
    );
}

#[test]
fn other_control_characters_get_four_digit_escapes() {
    let snapshot = ClipboardSnapshot::text("\u{0}\u{b}\u{1f}".to_string());
    assert_eq!(
        snapshot.to_message(),
        "{\"type\":\"text\",\"data\":\"\\u0000\\u000b\\u001f\"}"
    );
}

#[test]
fn everything_else_stands_for_itself() {
    let snapshot = ClipboardSnapshot::text(" /\u{7f}\u{e9}\u{20ac}\u{1f600}'".to_string());
    assert_eq!(
        snapshot.to_message(),
        "{\"type\":\"text\",\"data\":\" /\u{7f}\u{e9}\u{20ac}\u{1f600}'\"}"
    );
}

#[test]
fn message_is_one_json_object() {
    let snapshot = ClipboardSnapshot::text("a \"quoted\" \u{e9}\r\n line".to_string());
    let value: serde_json::Value = serde_json::from_str(&snapshot.to_message()).unwrap();
    let object = value.as_object().unwrap();
    assert_eq!(object.len(), 2);
    assert_eq!(object.get("type").and_then(|v| v.as_str()), Some("text"));
    assert_eq!(object.get("data").and_then(|v| v.as_str()), Some("a \"quoted\" \u{e9}\r\n line"));
}

#[test]
fn text_wins_over_a_picture() {
    let image = RawImage { width: 1, height: 1, bytes: vec![1, 2, 3, 4] };
    let snapshot = get_clipboard_content(Some("note".to_string()), Some(image)).unwrap();
    assert!(snapshot == ClipboardSnapshot::text("note".to_string()));
}

#[test]
fn clipboard_with_nothing_is_empty() {
    let snapshot = get_clipboard_content(None, None).unwrap();
    assert!(snapshot == ClipboardSnapshot::empty());
    assert_eq!(snapshot.to_message(), "{\"type\":\"empty\",\"data\":\"\"}");
}

#[test]
fn picture_becomes_base64_of_a_png() {
    let pixels: Vec<u8> = vec![255, 0, 0, 255, 0, 255, 0, 128, 0, 0, 255, 0, 9, 8, 7, 6];
    let image = RawImage { width: 2, height: 2, bytes: pixels.clone() };
    let snapshot = get_clipboard_content(None, Some(image)).unwrap();
    assert_eq!(snapshot.content_type, ContentType::Image);
    assert!(snapshot.payload.starts_with("iVBORw0KGgo"));
    #[allow(deprecated)]
    let file = base64::decode(&snapshot.payload).unwrap();
    assert_eq!(&file[..8], &[0x89, b'P', b'N', b'G', 0x0d, 0x0a, 0x1a, 0x0a]);
    let decoded = image::load_from_memory_with_format(&file, image::ImageFormat::Png).unwrap();
    assert_eq!(decoded.width(), 2);
    assert_eq!(decoded.height(), 2);
    assert_eq!(decoded.to_rgba8().into_raw(), pixels);
}

#[test]
fn picture_uses_only_the_pixels_it_needs() {
    let exact = encode_image(RawImage { width: 1, height: 1, bytes: vec![1, 2, 3, 4] }).unwrap();
    let longer =
        encode_image(RawImage { width: 1, height: 1, bytes: vec![1, 2, 3, 4, 5, 6] }).unwrap();
    assert_eq!(exact, longer);
}

#[test]
fn picture_with_too_few_bytes_has_no_payload() {
    assert_eq!(encode_image(RawImage { width: 2, height: 2, bytes: vec![0; 15] }), None);
    let image = RawImage { width: 2, height: 2, bytes: vec![0; 15] };
    assert!(get_clipboard_content(None, Some(image)).is_none());
}

#[test]
fn picture_without_area_has_no_payload() {
    assert_eq!(encode_image(RawImage { width: 0, height: 3, bytes: Vec::new() }), None);
    assert_eq!(encode_image(RawImage { width: 3, height: 0, bytes: Vec::new() }), None);
}

#[test]
fn picture_with_oversized_side_has_no_payload() {
    if usize::BITS > 32 {
        let width = (u32::MAX as usize) + 1;
        assert_eq!(encode_image(RawImage { width, height: 0, bytes: Vec::new() }), None);
    }
}

#[test]
fn pixel_count_is_checked_without_overflow() {
    assert!(holds_pixels(2, 3, 24));
    assert!(!holds_pixels(2, 3, 23));
    assert!(holds_pixels(0, u32::MAX, 0));
    assert!(!holds_pixels(u32::MAX, u32::MAX, usize::MAX));
}

#[test]
fn png_bytes_become_standard_base64() {
    assert_eq!(png_to_payload(&b"hi".to_vec()), Some("aGk=".to_string()));
    assert_eq!(png_to_payload(&vec![0xfb, 0xff]), Some("+/8=".to_string()));
    assert_eq!(png_to_payload(&Vec::new()), Some(String::new()));
}
