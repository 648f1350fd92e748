//! The gamepad subsystem and opened gamepads.
//!
//! SDL's answers reach these functions as plain values: a count or an
//! absent one, a handle or none, a result code, the text of a C string or
//! its absence, and SDL's error message. Each function decides what the
//! binding returns for every such answer.

use vstd::prelude::*;

use crate::cstr::{c_str_to_string, c_str_to_string_or_err, NulError};
use crate::error::{AddMappingError, IntegerOrSdlError};

verus! {

/// What adding a mapping did. The variants come in the order of SDL's
/// result codes, so `Updated as i32` is 0 and `Added as i32` is 1.
#[derive(Copy, Clone, Eq, PartialEq, Hash, Debug, Structural)]
pub enum MappingStatus {
    Updated,
    Added,
}

/// The status that SDL's result code for an added mapping reports: 1 for
/// a new mapping, 0 for a replaced one, and no status for any other code.
pub open spec fn mapping_status_of(code: i32) -> Option<MappingStatus> {
    if code == 1 {
        Some(MappingStatus::Added)
    } else if code == 0 {
        Some(MappingStatus::Updated)
    } else {
        None
    }
}

/// What loading mappings returns for SDL's result: the number of mappings
/// added, or SDL's error where SDL reports -1.
pub open spec fn loaded_mappings(result: i32, error: String) -> Result<i32, AddMappingError> {
    if result == -1 {
        Err(AddMappingError::SdlError(error))
    } else {
        Ok(result)
    }
}

/// `Ok` where SDL reports success, SDL's error otherwise.
pub open spec fn sdl_outcome(succeeded: bool, error: String) -> Result<(), IntegerOrSdlError> {
    if succeeded {
        Ok(())
    } else {
        Err(IntegerOrSdlError::SdlError(error))
    }
}

/// SDL's result code for an added mapping decides the status: 1 reports
/// a new mapping, 0 a replaced one, and every other code reports no status.
pub proof fn lemma_mapping_status_codes(code: i32)
    ensures
        (mapping_status_of(code) == Some(MappingStatus::Added)) <==> code == 1,
        (mapping_status_of(code) == Some(MappingStatus::Updated)) <==> code == 0,
        mapping_status_of(code) is None <==> (code != 0 && code != 1),
{
}

/// Loading mappings passes on the count SDL reported, unchanged, for every
/// result but -1, and reports SDL's error for -1 alone.
pub proof fn lemma_loading_keeps_count(result: i32, error: String)
    ensures
        result != -1 ==> loaded_mappings(result, error) == Ok::<i32, AddMappingError>(result),
        result == -1 ==> loaded_mappings(result, error) == Err::<i32, AddMappingError>(
            AddMappingError::SdlError(error),
        ),
        loaded_mappings(result, error) matches Ok(count) ==> count == result && count != -1,
{
}

/// An SDL call reports success exactly when SDL did it, and a failure
/// carries SDL's error message unchanged.
pub proof fn lemma_sdl_outcome(succeeded: bool, error: String)
    ensures
        sdl_outcome(succeeded, error) is Ok <==> succeeded,
        !succeeded ==> sdl_outcome(succeeded, error) == Err::<(), IntegerOrSdlError>(
            IntegerOrSdlError::SdlError(error),
        ),
{
}

/// The gamepad subsystem of an initialized SDL context `C`.
pub struct GamepadSubsystem<C> {
    context: C,
}

impl<C: Clone> Clone for GamepadSubsystem<C> {
    fn clone(&self) -> (s: Self)
        ensures
            vstd::pervasive::cloned(self.spec_context(), s.spec_context()),
    {
        GamepadSubsystem { context: self.context.clone() }
    }
}

impl<C> GamepadSubsystem<C> {
    /// The SDL context this subsystem keeps alive.
    pub closed spec fn spec_context(&self) -> C {
        self.context
    }

    /// The gamepad subsystem of `context`.
    pub fn new(context: C) -> (s: Self)
        ensures
            s.spec_context() == context,
    {
        GamepadSubsystem { context }
    }

    /// The number of attached gamepads, given how many SDL listed, or no
    /// count where SDL could not list them.
    pub fn num_gamepads(&self, listed: Option<i32>, error: String) -> (r: Result<u32, String>)
        ensures
            r == match listed {
                Some(n) => Ok::<u32, String>(n as u32),
                None => Err(error),
            },
    {
        match listed {
            Some(n) => Ok(n as u32),
            None => Err(error),
        }
    }

    /// The gamepad that SDL opened, given its handle, or no handle where
    /// SDL could not open it.
    pub fn open<H>(&self, controller: Option<H>, error: String) -> (r: Result<
        Gamepad<C, H>,
        IntegerOrSdlError,
    >) where C: Clone
        ensures
            r is Ok <==> controller is Some,
            match r {
                Ok(g) => {
                    &&& controller == Some(g.spec_raw())
                    &&& vstd::pervasive::cloned(
                        self.spec_context(),
                        g.spec_subsystem().spec_context(),
                    )
                },
                Err(e) => e == IntegerOrSdlError::SdlError(error),
            },
    {
        match controller {
            Some(raw) => Ok(Gamepad { subsystem: self.clone(), raw }),
            None => Err(IntegerOrSdlError::SdlError(error)),
        }
    }

    /// The name of the gamepad at an index, given the name SDL returned,
    /// or none where SDL returned a null pointer.
    pub fn name_for_index(&self, name: Option<String>, error: String) -> (r: Result<
        String,
        IntegerOrSdlError,
    >)
        ensures
            r == match name {
                Some(n) => Ok::<String, IntegerOrSdlError>(n),
                None => Err(IntegerOrSdlError::SdlError(error)),
            },
    {
        match name {
            Some(n) => Ok(n),
            None => Err(IntegerOrSdlError::SdlError(error)),
        }
    }

    /// What adding a mapping string returns. `added` is what came of
    /// handing the string to SDL: the `NulError` of a string that C cannot
    /// read (see `to_c_string`), or SDL's result code.
    pub fn add_mapping(&self, added: Result<i32, NulError>, error: String) -> (r: Result<
        MappingStatus,
        AddMappingError,
    >)
        ensures
            match added {
                Err(e) => r == Err::<MappingStatus, AddMappingError>(
                    AddMappingError::InvalidMapping(e),
                ),
                Ok(code) => match mapping_status_of(code) {
                    Some(status) => r == Ok::<MappingStatus, AddMappingError>(status),
                    None => r == Err::<MappingStatus, AddMappingError>(
                        AddMappingError::SdlError(error),
                    ),
                },
            },
            added == Ok::<i32, NulError>(1) ==> r == Ok::<MappingStatus, AddMappingError>(
                MappingStatus::Added,
            ),
            added == Ok::<i32, NulError>(0) ==> r == Ok::<MappingStatus, AddMappingError>(
                MappingStatus::Updated,
            ),
            added matches Ok(code) ==> (code != 0 && code != 1 ==> r == Err::<
                MappingStatus,
                AddMappingError,
            >(AddMappingError::SdlError(error))),
    {
        match added {
            Err(e) => Err(AddMappingError::InvalidMapping(e)),
            Ok(1) => Ok(MappingStatus::Added),
            Ok(0) => Ok(MappingStatus::Updated),
            Ok(_) => Err(AddMappingError::SdlError(error)),
        }
    }

    /// What loading mappings from a file returns. `loaded` is the error of
    /// opening the file, or SDL's result for the opened file.
    pub fn load_mappings(&self, loaded: Result<i32, String>, error: String) -> (r: Result<
        i32,
        AddMappingError,
    >)
        ensures
            r == match loaded {
                Err(e) => Err(AddMappingError::InvalidFilePath(e)),
                Ok(result) => loaded_mappings(result, error),
            },
            loaded matches Ok(n) ==> (n != -1 ==> r == Ok::<i32, AddMappingError>(n)),
            loaded matches Ok(n) ==> (n == -1 ==> r == Err::<i32, AddMappingError>(
                AddMappingError::SdlError(error),
            )),
    {
        match loaded {
            Err(e) => Err(AddMappingError::InvalidFilePath(e)),
            Ok(result) => self.load_mappings_from_rw(result, error),
        }
    }

    /// What loading mappings from a reader returns. `loaded` is the error
    /// of reading, or SDL's result for what was read.
    pub fn load_mappings_from_read(&self, loaded: Result<i32, String>, error: String) -> (r:
        Result<i32, AddMappingError>)
        ensures
            r == match loaded {
                Err(e) => Err(AddMappingError::ReadError(e)),
                Ok(result) => loaded_mappings(result, error),
            },
            loaded matches Ok(n) ==> (n != -1 ==> r == Ok::<i32, AddMappingError>(n)),
            loaded matches Ok(n) ==> (n == -1 ==> r == Err::<i32, AddMappingError>(
                AddMappingError::SdlError(error),
            )),
    {
        match loaded {
            Err(e) => Err(AddMappingError::ReadError(e)),
            Ok(result) => self.load_mappings_from_rw(result, error),
        }
    }

    /// What loading mappings from an SDL stream returns, given SDL's result.
    pub fn load_mappings_from_rw(&self, result: i32, error: String) -> (r: Result<
        i32,
        AddMappingError,
    >)
        ensures
            r == loaded_mappings(result, error),
            result != -1 ==> r == Ok::<i32, AddMappingError>(result),
            result == -1 ==> r == Err::<i32, AddMappingError>(AddMappingError::SdlError(error)),
    {
        if result == -1 {
            Err(AddMappingError::SdlError(error))
        } else {
            Ok(result)
        }
    }

    /// The mapping of a joystick GUID, given the string SDL returned, or
    /// none where SDL returned a null pointer.
    pub fn mapping_for_guid(&self, mapping: Option<String>, error: String) -> (r: Result<
        String,
        String,
    >)
        ensures
            r == match mapping {
                Some(m) => Ok::<String, String>(m),
                None => Err(error),
            },
    {
        c_str_to_string_or_err(mapping, error)
    }
}

/// The length that SDL is told an effect packet of `data` has: its
/// length in bytes, truncated to an `i32`.
pub fn effect_length(data: &[u8]) -> (len: i32)
    ensures
        len == data@.len() as i32,
{
    data.len() as i32
}

/// The value count that SDL is told a sensor buffer of `data_len` values
/// holds: the length itself where it fits in an `i32`, and none where it
/// does not, which the binding refuses.
pub fn sensor_data_length(data_len: usize) -> (len: Option<i32>)
    ensures
        len == if data_len <= i32::MAX {
            Some(data_len as i32)
        } else {
            None::<i32>
        },
{
    if data_len <= i32::MAX as usize {
        Some(data_len as i32)
    } else {
        None
    }
}

/// An opened gamepad: the subsystem it belongs to, and SDL's handle `H`.
pub struct Gamepad<C, H> {
    subsystem: GamepadSubsystem<C>,
    raw: H,
}

impl<C, H> Gamepad<C, H> {
    pub closed spec fn spec_subsystem(&self) -> GamepadSubsystem<C> {
        self.subsystem
    }

    pub closed spec fn spec_raw(&self) -> H {
        self.raw
    }

    /// The subsystem this gamepad was opened through.
    pub fn subsystem(&self) -> (s: &GamepadSubsystem<C>)
        ensures
            *s == self.spec_subsystem(),
    {
        &self.subsystem
    }

    /// SDL's handle of this gamepad.
    pub fn raw(&self) -> (h: &H)
        ensures
            *h == self.spec_raw(),
    {
        &self.raw
    }

    /// The name of the gamepad, given the string SDL returned: empty where
    /// SDL has none.
    pub fn name(&self, name: Option<String>) -> (s: String)
        ensures
            s@ == match name {
                Some(n) => n@,
                None => Seq::<char>::empty(),
            },
    {
        c_str_to_string(name)
    }

    /// The mapping of the gamepad, given the string SDL returned: empty
    /// where SDL has none.
    pub fn mapping(&self, mapping: Option<String>) -> (s: String)
        ensures
            s@ == match mapping {
                Some(m) => m@,
                None => Seq::<char>::empty(),
            },
    {
        c_str_to_string(mapping)
    }

    /// What starting a rumble returns, given whether SDL started it.
    pub fn set_rumble(&mut self, started: bool, error: String) -> (r: Result<(), IntegerOrSdlError>)
        ensures
            *final(self) == *old(self),
            r == sdl_outcome(started, error),
            r is Ok <==> started,
            !started ==> r == Err::<(), IntegerOrSdlError>(IntegerOrSdlError::SdlError(error)),
    {
        if !started {
            Err(IntegerOrSdlError::SdlError(error))
        } else {
            Ok(())
        }
    }

    /// What starting a trigger rumble returns, given whether SDL started it.
    pub fn set_rumble_triggers(&mut self, started: bool, error: String) -> (r: Result<
        (),
        IntegerOrSdlError,
    >)
        ensures
            *final(self) == *old(self),
            r == sdl_outcome(started, error),
            r is Ok <==> started,
            !started ==> r == Err::<(), IntegerOrSdlError>(IntegerOrSdlError::SdlError(error)),
    {
        if !started {
            Err(IntegerOrSdlError::SdlError(error))
        } else {
            Ok(())
        }
    }

    /// What setting the LED color returns, given whether SDL set it.
    pub fn set_led(&mut self, set: bool, error: String) -> (r: Result<(), IntegerOrSdlError>)
        ensures
            *final(self) == *old(self),
            r == sdl_outcome(set, error),
            r is Ok <==> set,
            !set ==> r == Err::<(), IntegerOrSdlError>(IntegerOrSdlError::SdlError(error)),
    {
        if set == false {
            Err(IntegerOrSdlError::SdlError(error))
        } else {
            Ok(())
        }
    }

    /// What sending an effect packet returns, given whether SDL sent it.
    pub fn send_effect(&mut self, sent: bool, error: String) -> (r: Result<(), String>)
        ensures
            *final(self) == *old(self),
            r == if sent {
                Ok::<(), String>(())
            } else {
                Err(error)
            },
    {
        if sent == false {
            Err(error)
        } else {
            Ok(())
        }
    }

    /// What enabling or disabling a sensor returns, given whether SDL did it.
    pub fn sensor_set_enabled(&self, set: bool, error: String) -> (r: Result<(), IntegerOrSdlError>)
        ensures
            r == sdl_outcome(set, error),
            r is Ok <==> set,
            !set ==> r == Err::<(), IntegerOrSdlError>(IntegerOrSdlError::SdlError(error)),
    {
        if !set {
            Err(IntegerOrSdlError::SdlError(error))
        } else {
            Ok(())
        }
    }

    /// What reading a sensor's values returns, given whether SDL read them.
    pub fn sensor_get_data(&self, read: bool, error: String) -> (r: Result<(), IntegerOrSdlError>)
        ensures
            r == sdl_outcome(read, error),
            r is Ok <==> read,
            !read ==> r == Err::<(), IntegerOrSdlError>(IntegerOrSdlError::SdlError(error)),
    {
        if !read {
            Err(IntegerOrSdlError::SdlError(error))
        } else {
            Ok(())
        }
    }
}

} // verus!
