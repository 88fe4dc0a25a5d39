use haalka::button::{button_label, button_look, ButtonLook};

#[test]
fn pressing_wins_over_hovering() {
    assert_eq!(button_look(false, false), ButtonLook::Normal);
    assert_eq!(button_look(false, true), ButtonLook::Hovered);
    assert_eq!(button_look(true, false), ButtonLook::Pressed);
    assert_eq!(button_look(true, true), ButtonLook::Pressed);
}

#[test]
fn button_labels() {
    let text = "Button".to_string();
    assert_eq!(button_label(false, false, &text), "Button");
    assert_eq!(button_label(false, true, &text), "Hover");
    assert_eq!(button_label(true, true, &text), "Press");
    assert_eq!(button_label(true, false, &text), "Press");
}
