# sdl3_gamepad

The gamepad part of an SDL3 binding, split in two.

- `src/` is the library, verified with Verus. It never calls SDL: every
  function takes what SDL returned as plain values (a code, a handle or
  none, the text of a C string or none, SDL's error message) and decides
  what the binding returns.
  - `sys`: the codes of SDL's gamepad axis and button enumerations.
  - `axis`, `button`: `Axis` and `Button`, their codes, and the proofs that
    encoding and decoding are inverse.
  - `cstr`: strings handed to C (`to_c_string`, with `NulError`) and read
    back from C.
  - `error`: `IntegerOrSdlError` and `AddMappingError` with their messages.
  - `gamepad`: `GamepadSubsystem`, `Gamepad` and `MappingStatus`.
- `app/` declares the SDL3 functions and makes the calls, handing each result
  to the library.
- `tests/` runs the library on concrete values.
