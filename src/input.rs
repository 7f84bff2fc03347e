//! The frontend's gamepad as the console's digital pad. The frontend's pad is
//! laid out like a SNES pad, so its A button is the console's Circle.
use vstd::prelude::*;

verus! {

/// A button of the frontend's pad.
#[derive(Clone, Copy, Debug, PartialEq, Eq, Structural)]
pub enum JoyPadButton {
    B,
    Y,
    Select,
    Start,
    Up,
    Down,
    Left,
    Right,
    A,
    X,
    L,
    R,
    L2,
    R2,
}

/// A button of the console's digital pad.
#[derive(Clone, Copy, Debug, PartialEq, Eq, Structural)]
pub enum Button {
    Select,
    Start,
    DUp,
    DRight,
    DDown,
    DLeft,
    L2,
    R2,
    L1,
    R1,
    Triangle,
    Circle,
    Cross,
    Square,
}

/// Whether a button of the console's pad is held.
#[derive(Clone, Copy, Debug, PartialEq, Eq, Structural)]
pub enum ButtonState {
    Pressed,
    Released,
}

/// The frontend's buttons, in the order `poll_controllers` reads them.
pub open spec fn retro_buttons() -> Seq<JoyPadButton> {
    seq![
        JoyPadButton::Up,
        JoyPadButton::Down,
        JoyPadButton::Left,
        JoyPadButton::Right,
        JoyPadButton::Start,
        JoyPadButton::Select,
        JoyPadButton::A,
        JoyPadButton::B,
        JoyPadButton::Y,
        JoyPadButton::X,
        JoyPadButton::L,
        JoyPadButton::R,
        JoyPadButton::L2,
        JoyPadButton::R2,
    ]
}

pub open spec fn psx_button_of(b: JoyPadButton) -> Button {
    match b {
        JoyPadButton::Up => Button::DUp,
        JoyPadButton::Down => Button::DDown,
        JoyPadButton::Left => Button::DLeft,
        JoyPadButton::Right => Button::DRight,
        JoyPadButton::Start => Button::Start,
        JoyPadButton::Select => Button::Select,
        JoyPadButton::A => Button::Circle,
        JoyPadButton::B => Button::Cross,
        JoyPadButton::Y => Button::Square,
        JoyPadButton::X => Button::Triangle,
        JoyPadButton::L => Button::L1,
        JoyPadButton::R => Button::R1,
        JoyPadButton::L2 => Button::L2,
        JoyPadButton::R2 => Button::R2,
    }
}

/// The console button a frontend button stands for.
pub fn psx_button(b: JoyPadButton) -> (r: Button)
    ensures
        r == psx_button_of(b),
{
    match b {
        JoyPadButton::Up => Button::DUp,
        JoyPadButton::Down => Button::DDown,
        JoyPadButton::Left => Button::DLeft,
        JoyPadButton::Right => Button::DRight,
        JoyPadButton::Start => Button::Start,
        JoyPadButton::Select => Button::Select,
        JoyPadButton::A => Button::Circle,
        JoyPadButton::B => Button::Cross,
        JoyPadButton::Y => Button::Square,
        JoyPadButton::X => Button::Triangle,
        JoyPadButton::L => Button::L1,
        JoyPadButton::R => Button::R1,
        JoyPadButton::L2 => Button::L2,
        JoyPadButton::R2 => Button::R2,
    }
}

/// The frontend's buttons in `retro_buttons` order.
pub fn retro_button_list() -> (r: Vec<JoyPadButton>)
    ensures
        r@ == retro_buttons(),
{
    let r = vec![
        JoyPadButton::Up,
        JoyPadButton::Down,
        JoyPadButton::Left,
        JoyPadButton::Right,
        JoyPadButton::Start,
        JoyPadButton::Select,
        JoyPadButton::A,
        JoyPadButton::B,
        JoyPadButton::Y,
        JoyPadButton::X,
        JoyPadButton::L,
        JoyPadButton::R,
        JoyPadButton::L2,
        JoyPadButton::R2,
    ];
    assert(r@ =~= retro_buttons());
    r
}

/// The state of each console button, given whether each frontend button of
/// `retro_buttons` (same order) is held.
pub fn poll_controllers(pressed: &Vec<bool>) -> (r: Vec<(Button, ButtonState)>)
    requires
        pressed@.len() == retro_buttons().len(),
    ensures
        r@.len() == retro_buttons().len(),
        forall|i: int|
            0 <= i < r@.len() ==> #[trigger] r@[i] == (
                psx_button_of(retro_buttons()[i]),
                if pressed@[i] {
                    ButtonState::Pressed
                } else {
                    ButtonState::Released
                },
            ),
{
    let buttons = retro_button_list();
    let mut out: Vec<(Button, ButtonState)> = Vec::new();
    let mut i: usize = 0;
    while i < buttons.len()
        invariant
            buttons@ == retro_buttons(),
            pressed@.len() == buttons@.len(),
            i <= buttons@.len(),
            out@.len() == i,
            forall|j: int|
                0 <= j < i ==> #[trigger] out@[j] == (
                    psx_button_of(retro_buttons()[j]),
                    if pressed@[j] {
                        ButtonState::Pressed
                    } else {
                        ButtonState::Released
                    },
                ),
        decreases buttons@.len() - i,
    {
        let state = if pressed[i] {
            ButtonState::Pressed
        } else {
            ButtonState::Released
        };
        out.push((psx_button(buttons[i]), state));
        i = i + 1;
    }
    out
}

} // verus!
