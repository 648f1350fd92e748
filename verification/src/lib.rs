//! The verified core of an SDL3 gamepad binding: the encodings of gamepad
//! axes and buttons as SDL codes, the preparation of strings handed to C,
//! and the interpretation of every result that SDL's gamepad functions
//! report.
//!
//! Nothing here calls SDL. Each function takes what SDL returned, as plain
//! values, and decides what the binding returns to its caller.

pub mod sys;
pub mod axis;
pub mod button;
pub mod text;
pub mod cstr;
pub mod error;
pub mod gamepad;
