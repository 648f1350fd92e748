//! The errors that the gamepad functions report.

use vstd::prelude::*;
use vstd::string::*;

use crate::cstr::{nul_error_message, NulError};

verus! {

/// An error of an SDL call that can also fail on an integer that does not fit.
#[derive(Clone, Debug, PartialEq, Eq)]
pub enum IntegerOrSdlError {
    IntegerOverflows(&'static str, u32),
    SdlError(String),
}

/// Why a gamepad mapping could not be added.
#[derive(Clone, Debug)]
pub enum AddMappingError {
    InvalidMapping(NulError),
    InvalidFilePath(String),
    ReadError(String),
    SdlError(String),
}

/// The message that an `AddMappingError` displays.
pub open spec fn add_mapping_error_message(e: AddMappingError) -> Seq<char> {
    match e {
        AddMappingError::InvalidMapping(n) => "Null error: "@ + nul_error_message(n.position as nat),
        AddMappingError::InvalidFilePath(v) => "Invalid file path ("@ + v@ + ")"@,
        AddMappingError::ReadError(m) => "Read error: "@ + m@,
        AddMappingError::SdlError(m) => "SDL error: "@ + m@,
    }
}

/// The short description of an `AddMappingError`: a fixed phrase for each
/// kind, and SDL's own message for an SDL error.
pub open spec fn add_mapping_error_description(e: AddMappingError) -> Seq<char> {
    match e {
        AddMappingError::InvalidMapping(_) => "invalid mapping"@,
        AddMappingError::InvalidFilePath(_) => "invalid file path"@,
        AddMappingError::ReadError(_) => "read error"@,
        AddMappingError::SdlError(m) => m@,
    }
}

impl AddMappingError {
    /// The message of this error, as the binding displays it.
    pub fn to_string(&self) -> (msg: String)
        ensures
            msg@ == add_mapping_error_message(*self),
    {
        proof {
            reveal_strlit("Null error: ");
            reveal_strlit("Invalid file path (");
            reveal_strlit(")");
            reveal_strlit("Read error: ");
            reveal_strlit("SDL error: ");
        }
        match self {
            AddMappingError::InvalidMapping(e) => {
                let inner = e.to_string();
                String::from_str("Null error: ").concat(inner.as_str())
            },
            AddMappingError::InvalidFilePath(value) => {
                String::from_str("Invalid file path (").concat(value.as_str()).concat(")")
            },
            AddMappingError::ReadError(e) => String::from_str("Read error: ").concat(e.as_str()),
            AddMappingError::SdlError(e) => String::from_str("SDL error: ").concat(e.as_str()),
        }
    }

    /// A short description of this error.
    pub fn description(&self) -> (d: &str)
        ensures
            d@ == add_mapping_error_description(*self),
    {
        proof {
            reveal_strlit("invalid mapping");
            reveal_strlit("invalid file path");
            reveal_strlit("read error");
        }
        match self {
            AddMappingError::InvalidMapping(_) => "invalid mapping",
            AddMappingError::InvalidFilePath(_) => "invalid file path",
            AddMappingError::ReadError(_) => "read error",
            AddMappingError::SdlError(e) => e.as_str(),
        }
    }
}

} // verus!
