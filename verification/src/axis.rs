//! Gamepad axes and their SDL codes.

use vstd::prelude::*;

use crate::cstr::{c_str_to_string, NulError};
use crate::sys;

verus! {

/// An analog control of a gamepad.
#[derive(Copy, Clone, Eq, PartialEq, Hash, Debug, Structural)]
pub enum Axis {
    LeftX,
    LeftY,
    RightX,
    RightY,
    TriggerLeft,
    TriggerRight,
}

impl Axis {
    /// The axis whose SDL code is `code`, or `None` where no axis has it.
    pub open spec fn from_code(code: int) -> Option<Axis> {
        if exists|a: Axis| a.code() == code {
            Some(choose|a: Axis| a.code() == code)
        } else {
            None
        }
    }

    /// The SDL code of an axis.
    pub open spec fn code(self) -> i32 {
        match self {
            Axis::LeftX => sys::SDL_GAMEPAD_AXIS_LEFTX,
            Axis::LeftY => sys::SDL_GAMEPAD_AXIS_LEFTY,
            Axis::RightX => sys::SDL_GAMEPAD_AXIS_RIGHTX,
            Axis::RightY => sys::SDL_GAMEPAD_AXIS_RIGHTY,
            Axis::TriggerLeft => sys::SDL_GAMEPAD_AXIS_LEFT_TRIGGER,
            Axis::TriggerRight => sys::SDL_GAMEPAD_AXIS_RIGHT_TRIGGER,
        }
    }

    /// The axis that SDL code `bitflags` stands for, if any.
    pub fn from_ll(bitflags: i32) -> (axis: Option<Axis>)
        ensures
            axis == Axis::from_code(bitflags as int),
    {
        proof {
            lemma_axis_decode(bitflags as int);
        }
        match bitflags {
            sys::SDL_GAMEPAD_AXIS_LEFTX => Some(Axis::LeftX),
            sys::SDL_GAMEPAD_AXIS_LEFTY => Some(Axis::LeftY),
            sys::SDL_GAMEPAD_AXIS_RIGHTX => Some(Axis::RightX),
            sys::SDL_GAMEPAD_AXIS_RIGHTY => Some(Axis::RightY),
            sys::SDL_GAMEPAD_AXIS_LEFT_TRIGGER => Some(Axis::TriggerLeft),
            sys::SDL_GAMEPAD_AXIS_RIGHT_TRIGGER => Some(Axis::TriggerRight),
            _ => None,
        }
    }

    /// The SDL code of this axis.
    pub fn to_ll(self) -> (code: i32)
        ensures
            code == self.code(),
            0 <= code < sys::SDL_GAMEPAD_AXIS_MAX,
    {
        match self {
            Axis::LeftX => sys::SDL_GAMEPAD_AXIS_LEFTX,
            Axis::LeftY => sys::SDL_GAMEPAD_AXIS_LEFTY,
            Axis::RightX => sys::SDL_GAMEPAD_AXIS_RIGHTX,
            Axis::RightY => sys::SDL_GAMEPAD_AXIS_RIGHTY,
            Axis::TriggerLeft => sys::SDL_GAMEPAD_AXIS_LEFT_TRIGGER,
            Axis::TriggerRight => sys::SDL_GAMEPAD_AXIS_RIGHT_TRIGGER,
        }
    }

    /// The axis that a name of the mapping-string format names. `looked_up`
    /// is what came of asking SDL: the `NulError` of a name that C cannot
    /// read, which names no axis, or the code SDL found for the name.
    pub fn from_string(looked_up: Result<i32, NulError>) -> (axis: Option<Axis>)
        ensures
            axis == match looked_up {
                Ok(code) => Axis::from_code(code as int),
                Err(_) => None,
            },
    {
        proof {
            lemma_axis_decode(sys::SDL_GAMEPAD_AXIS_INVALID as int);
        }
        let id = match looked_up {
            Ok(code) => code,
            Err(_) => sys::SDL_GAMEPAD_AXIS_INVALID,
        };
        Axis::from_ll(id)
    }

    /// The mapping-string name of this axis, given the string SDL returned
    /// for its code: empty where SDL has none.
    pub fn string(self, name: Option<String>) -> (s: String)
        ensures
            s@ == match name {
                Some(n) => n@,
                None => Seq::<char>::empty(),
            },
    {
        c_str_to_string(name)
    }

}

/// No two axes share an SDL code.
pub proof fn lemma_axis_code_injective(a: Axis, b: Axis)
    ensures
        a.code() == b.code() ==> a == b,
{
}

/// Decoding the SDL code of axis `a` gives `a` back: `from_ll(x.to_ll()) == Some(x)`.
pub proof fn lemma_axis_round_trip(a: Axis)
    ensures
        Axis::from_code(a.code() as int) == Some(a),
{
    let c = choose|x: Axis| x.code() == a.code();
    lemma_axis_code_injective(c, a);
}

/// A code decodes to some axis exactly when it lies in `0..SDL_GAMEPAD_AXIS_MAX`, and
/// the axis it decodes to has that code: `to_ll(from_ll(c)?) == c`.
pub proof fn lemma_axis_decode(code: int)
    ensures
        Axis::from_code(code) is Some <==> 0 <= code < sys::SDL_GAMEPAD_AXIS_MAX,
        Axis::from_code(code) matches Some(x) ==> x.code() == code,
        Axis::from_code(sys::SDL_GAMEPAD_AXIS_INVALID as int) is None,
{
    lemma_axis_code_range();
    if 0 <= code < sys::SDL_GAMEPAD_AXIS_MAX {
        lemma_axis_code_exists(code);
    }
}

proof fn lemma_axis_code_range()
    ensures
        forall|x: Axis| 0 <= #[trigger] x.code() < sys::SDL_GAMEPAD_AXIS_MAX,
{
}

proof fn lemma_axis_code_exists(code: int)
    requires
        0 <= code < sys::SDL_GAMEPAD_AXIS_MAX,
    ensures
        exists|x: Axis| x.code() == code,
{
    if code == 0 {
        assert(Axis::LeftX.code() == code);
    } else if code == 1 {
        assert(Axis::LeftY.code() == code);
    } else if code == 2 {
        assert(Axis::RightX.code() == code);
    } else if code == 3 {
        assert(Axis::RightY.code() == code);
    } else if code == 4 {
        assert(Axis::TriggerLeft.code() == code);
    } else if code == 5 {
        assert(Axis::TriggerRight.code() == code);
    }
}

} // verus!
