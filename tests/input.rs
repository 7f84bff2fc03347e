use rustation_libretro::input::{
    poll_controllers, psx_button, retro_button_list, Button, ButtonState, JoyPadButton,
};

#[test]
fn retropad_a_is_circle() {
    assert_eq!(psx_button(JoyPadButton::A), Button::Circle);
    assert_eq!(psx_button(JoyPadButton::B), Button::Cross);
    assert_eq!(psx_button(JoyPadButton::X), Button::Triangle);
    assert_eq!(psx_button(JoyPadButton::Y), Button::Square);
    assert_eq!(psx_button(JoyPadButton::L), Button::L1);
}

#[test]
fn poll_controllers_reports_every_button() {
    let buttons = retro_button_list();
    assert_eq!(buttons.len(), 14);
    let pressed: Vec<bool> = buttons.iter().map(|b| *b == JoyPadButton::A || *b == JoyPadButton::Up).collect();
    let states = poll_controllers(&pressed);
    assert_eq!(states.len(), 14);
    assert_eq!(states[0], (Button::DUp, ButtonState::Pressed));
    assert_eq!(states[6], (Button::Circle, ButtonState::Pressed));
    assert_eq!(states[7], (Button::Cross, ButtonState::Released));
    let held = states.iter().filter(|(_, s)| *s == ButtonState::Pressed).count();
    assert_eq!(held, 2);
}
