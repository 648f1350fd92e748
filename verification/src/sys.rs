//! The codes of SDL's gamepad enumerations, as its C header fixes them.

use vstd::prelude::*;

verus! {

/// The code SDL uses for "no such axis".
pub const SDL_GAMEPAD_AXIS_INVALID: i32 = -1;
pub const SDL_GAMEPAD_AXIS_LEFTX: i32 = 0;
pub const SDL_GAMEPAD_AXIS_LEFTY: i32 = 1;
pub const SDL_GAMEPAD_AXIS_RIGHTX: i32 = 2;
pub const SDL_GAMEPAD_AXIS_RIGHTY: i32 = 3;
pub const SDL_GAMEPAD_AXIS_LEFT_TRIGGER: i32 = 4;
pub const SDL_GAMEPAD_AXIS_RIGHT_TRIGGER: i32 = 5;
/// One past the last valid axis code.
pub const SDL_GAMEPAD_AXIS_MAX: i32 = 6;

/// The code SDL uses for "no such button".
pub const SDL_GAMEPAD_BUTTON_INVALID: i32 = -1;
pub const SDL_GAMEPAD_BUTTON_A: i32 = 0;
pub const SDL_GAMEPAD_BUTTON_B: i32 = 1;
pub const SDL_GAMEPAD_BUTTON_X: i32 = 2;
pub const SDL_GAMEPAD_BUTTON_Y: i32 = 3;
pub const SDL_GAMEPAD_BUTTON_BACK: i32 = 4;
pub const SDL_GAMEPAD_BUTTON_GUIDE: i32 = 5;
pub const SDL_GAMEPAD_BUTTON_START: i32 = 6;
pub const SDL_GAMEPAD_BUTTON_LEFT_STICK: i32 = 7;
pub const SDL_GAMEPAD_BUTTON_RIGHT_STICK: i32 = 8;
pub const SDL_GAMEPAD_BUTTON_LEFT_SHOULDER: i32 = 9;
pub const SDL_GAMEPAD_BUTTON_RIGHT_SHOULDER: i32 = 10;
pub const SDL_GAMEPAD_BUTTON_DPAD_UP: i32 = 11;
pub const SDL_GAMEPAD_BUTTON_DPAD_DOWN: i32 = 12;
pub const SDL_GAMEPAD_BUTTON_DPAD_LEFT: i32 = 13;
pub const SDL_GAMEPAD_BUTTON_DPAD_RIGHT: i32 = 14;
pub const SDL_GAMEPAD_BUTTON_MISC1: i32 = 15;
pub const SDL_GAMEPAD_BUTTON_PADDLE1: i32 = 16;
pub const SDL_GAMEPAD_BUTTON_PADDLE2: i32 = 17;
pub const SDL_GAMEPAD_BUTTON_PADDLE3: i32 = 18;
pub const SDL_GAMEPAD_BUTTON_PADDLE4: i32 = 19;
pub const SDL_GAMEPAD_BUTTON_TOUCHPAD: i32 = 20;
/// One past the last valid button code.
pub const SDL_GAMEPAD_BUTTON_MAX: i32 = 21;

} // verus!
