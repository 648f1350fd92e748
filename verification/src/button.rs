//! Gamepad buttons and their SDL codes.

use vstd::prelude::*;

use crate::cstr::{c_str_to_string, NulError};
use crate::sys;

verus! {

/// A button of a gamepad.
#[derive(Copy, Clone, Eq, PartialEq, Hash, Debug, Structural)]
pub enum Button {
    A,
    B,
    X,
    Y,
    Back,
    Guide,
    Start,
    LeftStick,
    RightStick,
    LeftShoulder,
    RightShoulder,
    DPadUp,
    DPadDown,
    DPadLeft,
    DPadRight,
    Misc1,
    Paddle1,
    Paddle2,
    Paddle3,
    Paddle4,
    Touchpad,
}

impl Button {
    /// The button whose SDL code is `code`, or `None` where no button has it.
    pub open spec fn from_code(code: int) -> Option<Button> {
        if exists|b: Button| b.code() == code {
            Some(choose|b: Button| b.code() == code)
        } else {
            None
        }
    }

    /// The SDL code of a button.
    pub open spec fn code(self) -> i32 {
        match self {
            Button::A => sys::SDL_GAMEPAD_BUTTON_A,
            Button::B => sys::SDL_GAMEPAD_BUTTON_B,
            Button::X => sys::SDL_GAMEPAD_BUTTON_X,
            Button::Y => sys::SDL_GAMEPAD_BUTTON_Y,
            Button::Back => sys::SDL_GAMEPAD_BUTTON_BACK,
            Button::Guide => sys::SDL_GAMEPAD_BUTTON_GUIDE,
            Button::Start => sys::SDL_GAMEPAD_BUTTON_START,
            Button::LeftStick => sys::SDL_GAMEPAD_BUTTON_LEFT_STICK,
            Button::RightStick => sys::SDL_GAMEPAD_BUTTON_RIGHT_STICK,
            Button::LeftShoulder => sys::SDL_GAMEPAD_BUTTON_LEFT_SHOULDER,
            Button::RightShoulder => sys::SDL_GAMEPAD_BUTTON_RIGHT_SHOULDER,
            Button::DPadUp => sys::SDL_GAMEPAD_BUTTON_DPAD_UP,
            Button::DPadDown => sys::SDL_GAMEPAD_BUTTON_DPAD_DOWN,
            Button::DPadLeft => sys::SDL_GAMEPAD_BUTTON_DPAD_LEFT,
            Button::DPadRight => sys::SDL_GAMEPAD_BUTTON_DPAD_RIGHT,
            Button::Misc1 => sys::SDL_GAMEPAD_BUTTON_MISC1,
            Button::Paddle1 => sys::SDL_GAMEPAD_BUTTON_PADDLE1,
            Button::Paddle2 => sys::SDL_GAMEPAD_BUTTON_PADDLE2,
            Button::Paddle3 => sys::SDL_GAMEPAD_BUTTON_PADDLE3,
            Button::Paddle4 => sys::SDL_GAMEPAD_BUTTON_PADDLE4,
            Button::Touchpad => sys::SDL_GAMEPAD_BUTTON_TOUCHPAD,
        }
    }

    /// The button that SDL code `bitflags` stands for, if any.
    pub fn from_ll(bitflags: i32) -> (button: Option<Button>)
        ensures
            button == Button::from_code(bitflags as int),
    {
        proof {
            lemma_button_decode(bitflags as int);
        }
        match bitflags {
            sys::SDL_GAMEPAD_BUTTON_A => Some(Button::A),
            sys::SDL_GAMEPAD_BUTTON_B => Some(Button::B),
            sys::SDL_GAMEPAD_BUTTON_X => Some(Button::X),
            sys::SDL_GAMEPAD_BUTTON_Y => Some(Button::Y),
            sys::SDL_GAMEPAD_BUTTON_BACK => Some(Button::Back),
            sys::SDL_GAMEPAD_BUTTON_GUIDE => Some(Button::Guide),
            sys::SDL_GAMEPAD_BUTTON_START => Some(Button::Start),
            sys::SDL_GAMEPAD_BUTTON_LEFT_STICK => Some(Button::LeftStick),
            sys::SDL_GAMEPAD_BUTTON_RIGHT_STICK => Some(Button::RightStick),
            sys::SDL_GAMEPAD_BUTTON_LEFT_SHOULDER => Some(Button::LeftShoulder),
            sys::SDL_GAMEPAD_BUTTON_RIGHT_SHOULDER => Some(Button::RightShoulder),
            sys::SDL_GAMEPAD_BUTTON_DPAD_UP => Some(Button::DPadUp),
            sys::SDL_GAMEPAD_BUTTON_DPAD_DOWN => Some(Button::DPadDown),
            sys::SDL_GAMEPAD_BUTTON_DPAD_LEFT => Some(Button::DPadLeft),
            sys::SDL_GAMEPAD_BUTTON_DPAD_RIGHT => Some(Button::DPadRight),
            sys::SDL_GAMEPAD_BUTTON_MISC1 => Some(Button::Misc1),
            sys::SDL_GAMEPAD_BUTTON_PADDLE1 => Some(Button::Paddle1),
            sys::SDL_GAMEPAD_BUTTON_PADDLE2 => Some(Button::Paddle2),
            sys::SDL_GAMEPAD_BUTTON_PADDLE3 => Some(Button::Paddle3),
            sys::SDL_GAMEPAD_BUTTON_PADDLE4 => Some(Button::Paddle4),
            sys::SDL_GAMEPAD_BUTTON_TOUCHPAD => Some(Button::Touchpad),
            _ => None,
        }
    }

    /// The SDL code of this button.
    pub fn to_ll(self) -> (code: i32)
        ensures
            code == self.code(),
            0 <= code < sys::SDL_GAMEPAD_BUTTON_MAX,
    {
        match self {
            Button::A => sys::SDL_GAMEPAD_BUTTON_A,
            Button::B => sys::SDL_GAMEPAD_BUTTON_B,
            Button::X => sys::SDL_GAMEPAD_BUTTON_X,
            Button::Y => sys::SDL_GAMEPAD_BUTTON_Y,
            Button::Back => sys::SDL_GAMEPAD_BUTTON_BACK,
            Button::Guide => sys::SDL_GAMEPAD_BUTTON_GUIDE,
            Button::Start => sys::SDL_GAMEPAD_BUTTON_START,
            Button::LeftStick => sys::SDL_GAMEPAD_BUTTON_LEFT_STICK,
            Button::RightStick => sys::SDL_GAMEPAD_BUTTON_RIGHT_STICK,
            Button::LeftShoulder => sys::SDL_GAMEPAD_BUTTON_LEFT_SHOULDER,
            Button::RightShoulder => sys::SDL_GAMEPAD_BUTTON_RIGHT_SHOULDER,
            Button::DPadUp => sys::SDL_GAMEPAD_BUTTON_DPAD_UP,
            Button::DPadDown => sys::SDL_GAMEPAD_BUTTON_DPAD_DOWN,
            Button::DPadLeft => sys::SDL_GAMEPAD_BUTTON_DPAD_LEFT,
            Button::DPadRight => sys::SDL_GAMEPAD_BUTTON_DPAD_RIGHT,
            Button::Misc1 => sys::SDL_GAMEPAD_BUTTON_MISC1,
            Button::Paddle1 => sys::SDL_GAMEPAD_BUTTON_PADDLE1,
            Button::Paddle2 => sys::SDL_GAMEPAD_BUTTON_PADDLE2,
            Button::Paddle3 => sys::SDL_GAMEPAD_BUTTON_PADDLE3,
            Button::Paddle4 => sys::SDL_GAMEPAD_BUTTON_PADDLE4,
            Button::Touchpad => sys::SDL_GAMEPAD_BUTTON_TOUCHPAD,
        }
    }

    /// The button that a name of the mapping-string format names. `looked_up`
    /// is what came of asking SDL: the `NulError` of a name that C cannot
    /// read, which names no button, or the code SDL found for the name.
    pub fn from_string(looked_up: Result<i32, NulError>) -> (button: Option<Button>)
        ensures
            button == match looked_up {
                Ok(code) => Button::from_code(code as int),
                Err(_) => None,
            },
    {
        proof {
            lemma_button_decode(sys::SDL_GAMEPAD_BUTTON_INVALID as int);
        }
        let id = match looked_up {
            Ok(code) => code,
            Err(_) => sys::SDL_GAMEPAD_BUTTON_INVALID,
        };
        Button::from_ll(id)
    }

    /// The mapping-string name of this button, given the string SDL returned
    /// for its code: empty where SDL has none.
    pub fn string(self, name: Option<String>) -> (s: String)
        ensures
            s@ == match name {
                Some(n) => n@,
                None => Seq::<char>::empty(),
            },
    {
        c_str_to_string(name)
    }

}

/// No two buttons share an SDL code.
pub proof fn lemma_button_code_injective(a: Button, b: Button)
    ensures
        a.code() == b.code() ==> a == b,
{
}

/// Decoding the SDL code of button `b` gives `b` back: `from_ll(x.to_ll()) == Some(x)`.
pub proof fn lemma_button_round_trip(b: Button)
    ensures
        Button::from_code(b.code() as int) == Some(b),
{
    let c = choose|x: Button| x.code() == b.code();
    lemma_button_code_injective(c, b);
}

/// A code decodes to some button exactly when it lies in `0..SDL_GAMEPAD_BUTTON_MAX`, and
/// the button it decodes to has that code: `to_ll(from_ll(c)?) == c`.
pub proof fn lemma_button_decode(code: int)
    ensures
        Button::from_code(code) is Some <==> 0 <= code < sys::SDL_GAMEPAD_BUTTON_MAX,
        Button::from_code(code) matches Some(x) ==> x.code() == code,
        Button::from_code(sys::SDL_GAMEPAD_BUTTON_INVALID as int) is None,
{
    lemma_button_code_range();
    if 0 <= code < sys::SDL_GAMEPAD_BUTTON_MAX {
        lemma_button_code_exists(code);
    }
}

proof fn lemma_button_code_range()
    ensures
        forall|x: Button| 0 <= #[trigger] x.code() < sys::SDL_GAMEPAD_BUTTON_MAX,
{
}

proof fn lemma_button_code_exists(code: int)
    requires
        0 <= code < sys::SDL_GAMEPAD_BUTTON_MAX,
    ensures
        exists|x: Button| x.code() == code,
{
    if code == 0 {
        assert(Button::A.code() == code);
    } else if code == 1 {
        assert(Button::B.code() == code);
    } else if code == 2 {
        assert(Button::X.code() == code);
    } else if code == 3 {
        assert(Button::Y.code() == code);
    } else if code == 4 {
        assert(Button::Back.code() == code);
    } else if code == 5 {
        assert(Button::Guide.code() == code);
    } else if code == 6 {
        assert(Button::Start.code() == code);
    } else if code == 7 {
        assert(Button::LeftStick.code() == code);
    } else if code == 8 {
        assert(Button::RightStick.code() == code);
    } else if code == 9 {
        assert(Button::LeftShoulder.code() == code);
    } else if code == 10 {
        assert(Button::RightShoulder.code() == code);
    } else if code == 11 {
        assert(Button::DPadUp.code() == code);
    } else if code == 12 {
        assert(Button::DPadDown.code() == code);
    } else if code == 13 {
        assert(Button::DPadLeft.code() == code);
    } else if code == 14 {
        assert(Button::DPadRight.code() == code);
    } else if code == 15 {
        assert(Button::Misc1.code() == code);
    } else if code == 16 {
        assert(Button::Paddle1.code() == code);
    } else if code == 17 {
        assert(Button::Paddle2.code() == code);
    } else if code == 18 {
        assert(Button::Paddle3.code() == code);
    } else if code == 19 {
        assert(Button::Paddle4.code() == code);
    } else if code == 20 {
        assert(Button::Touchpad.code() == code);
    }
}

} // verus!
