use system_extensions::messagebox::{
    BoxReturn, DefaultButton, IconType, MessageBox, WindowType,
};

#[test]
fn default_box_style_word() {
    let mb = MessageBox::new("My Title", "The content of the message box!");
    assert_eq!(mb.window_type, WindowType::OkayCancel);
    assert_eq!(mb.icon_type, IconType::Information);
    assert_eq!(mb.default_button, DefaultButton::One);
    assert_eq!(mb.style_word(), 0x41);
}

#[test]
fn style_word_combines_the_three_choices() {
    let mb = MessageBox::new("T", "C")
        .set_window_type(WindowType::YesNo)
        .set_icon_type(IconType::Error)
        .set_default_button(DefaultButton::Two);
    assert_eq!(mb.style_word(), 0x0004 | 0x0010 | 0x0100);
    let help = MessageBox::new("T", "C").set_window_type(WindowType::Help);
    assert_eq!(help.style_word(), 0x4000 | 0x0040);
}

#[test]
fn box_return_codes_round_trip() {
    let buttons = [
        BoxReturn::Abort,
        BoxReturn::Cancel,
        BoxReturn::Continue,
        BoxReturn::Ignore,
        BoxReturn::No,
        BoxReturn::Okay,
        BoxReturn::Retry,
        BoxReturn::TryAgain,
        BoxReturn::Yes,
    ];
    for b in buttons {
        assert_eq!(BoxReturn::from_code(b.code()), Some(b));
    }
    assert_eq!(BoxReturn::from_code(6), Some(BoxReturn::Yes));
}

#[test]
fn unknown_button_codes_are_no_button() {
    assert_eq!(BoxReturn::from_code(0), None);
    assert_eq!(BoxReturn::from_code(8), None);
    assert_eq!(BoxReturn::from_code(12), None);
    assert_eq!(BoxReturn::from_code(-1), None);
}

#[test]
fn builders_replace_one_field_each() {
    let mb = MessageBox::new("Old", "Body")
        .set_title("New")
        .set_content("Other body");
    assert_eq!(mb.title, "New");
    assert_eq!(mb.content, "Other body");
    assert_eq!(mb.window_type, WindowType::OkayCancel);
}
