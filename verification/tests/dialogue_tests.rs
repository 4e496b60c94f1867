use system_extensions::dialogue::{filter_to_str, slice_to_string, Filter};
use system_extensions::notification::SimpleNotification;

#[test]
fn filter_string_is_nul_separated() {
    let filters = vec![
        Filter::new("Text".to_string(), "*.txt".to_string()),
        Filter::new("All".to_string(), "*.*".to_string()),
    ];
    assert_eq!(filter_to_str(filters), "Text\0*.txt\0All\0*.*\0");
}

#[test]
fn filter_string_of_nothing_is_empty() {
    assert_eq!(filter_to_str(Vec::new()), "");
}

#[test]
fn slice_to_string_stops_at_the_first_nul() {
    let buffer: [i8; 7] = [104, 105, 0, 120, 121, 122, 0];
    assert_eq!(slice_to_string(&buffer), "hi");
}

#[test]
fn slice_to_string_reads_the_whole_buffer_without_nul() {
    let buffer: [i8; 2] = [111, 107];
    assert_eq!(slice_to_string(&buffer), "ok");
}

#[test]
fn slice_to_string_decodes_multi_byte_text() {
    // "é" is two UTF-8 bytes; decoding must fold them into one character.
    let buffer: [i8; 3] = [-61, -87, 0];
    let text = slice_to_string(&buffer);
    assert_eq!(text, "é");
    assert_eq!(text.chars().count(), 1);
}

#[test]
fn notification_builders_fill_the_descriptor() {
    let notif = SimpleNotification::new("Title".to_string())
        .set_title("Better title".to_string())
        .add_text("one".to_string())
        .add_text("two".to_string())
        .set_app_logo("logo.png".to_string())
        .set_hero_image("hero.png".to_string())
        .set_app_id("app".to_string());
    assert_eq!(notif.title, "Better title");
    assert_eq!(notif.text, vec!["one".to_string(), "two".to_string()]);
    assert_eq!(notif.app_logo, "logo.png");
    assert_eq!(notif.hero_image, "hero.png");
    assert_eq!(notif.app_id, "app");
}

#[test]
fn set_text_replaces_the_body() {
    let notif = SimpleNotification::new("T".to_string())
        .add_text("old".to_string())
        .set_text(vec!["new".to_string()]);
    assert_eq!(notif.text, vec!["new".to_string()]);
}
