//! The demonstration button: its look and label follow its pressed and hovered state, and
//! pressing wins over hovering.
use vstd::prelude::*;

verus! {

/// Which of its three looks (border and background) the button shows.
#[derive(Clone, Copy, PartialEq, Eq, Debug, Hash, Structural)]
pub enum ButtonLook {
    /// Neither pressed nor hovered.
    Normal,
    /// Hovered and not pressed.
    Hovered,
    /// Pressed.
    Pressed,
}

/// The look for a pressed and hovered state.
pub open spec fn spec_button_look(pressed: bool, hovered: bool) -> ButtonLook {
    if pressed {
        ButtonLook::Pressed
    } else if hovered {
        ButtonLook::Hovered
    } else {
        ButtonLook::Normal
    }
}

/// The button's look.
pub fn button_look(pressed: bool, hovered: bool) -> (r: ButtonLook)
    ensures
        r == spec_button_look(pressed, hovered),
{
    if pressed {
        ButtonLook::Pressed
    } else if hovered {
        ButtonLook::Hovered
    } else {
        ButtonLook::Normal
    }
}

/// The button's label: "Press" while pressed, "Hover" while only hovered, its own text
/// otherwise.
pub fn button_label(pressed: bool, hovered: bool, text: &String) -> (r: String)
    ensures
        r@ == if pressed {
            "Press"@
        } else if hovered {
            "Hover"@
        } else {
            text@
        },
{
    if pressed {
        "Press".to_owned()
    } else if hovered {
        "Hover".to_owned()
    } else {
        text.clone()
    }
}

/// Pressing decides the look whatever the hover state; without a press, hovering decides; the
/// normal look shows exactly when neither holds.
pub proof fn lemma_pressing_wins(pressed: bool, hovered: bool)
    ensures
        spec_button_look(true, hovered) == ButtonLook::Pressed,
        spec_button_look(false, true) == ButtonLook::Hovered,
        (spec_button_look(pressed, hovered) == ButtonLook::Normal) == (!pressed && !hovered),
        (spec_button_look(pressed, hovered) == ButtonLook::Pressed) == pressed,
{
}

} // verus!
