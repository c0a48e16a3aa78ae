//! Status codes of the calculator's foreign-function boundary.
//!
//! A native build of the calculator reports its outcome as an integer
//! status code: zero for success, and one non-zero code per validation
//! error, numbered in the declaration order of [`SscErrorCode`] starting at
//! one. This module decodes such a code into a typed error, keeping a
//! catch-all for any unrecognized code so that a caller bridging to a
//! foreign implementation never loses information.

use vstd::prelude::*;

verus! {

/// A known non-success status code of the native calculator.
#[derive(Copy, Clone, Debug, PartialEq, Eq, Structural)]
pub enum SscErrorCode {
    UnsupportedDate,
    InvalidPressure,
    InvalidTemperature,
    InvalidDeltaUt1,
    InvalidDeltaT,
    InvalidLongitude,
    InvalidLatitude,
    InvalidAtmosRefract,
    InvalidElevation,
}

/// An error decoded from a native status code: either one of the known
/// codes, or the raw value of an unrecognized one.
#[derive(Copy, Clone, Debug, PartialEq, Eq, Structural)]
pub enum SscError {
    KnownCode(SscErrorCode),
    UnknownCode(i32),
}

/// The numeric value of a known status code: its position in declaration
/// order, starting at one after the success code zero.
pub open spec fn status_code_value(c: SscErrorCode) -> int {
    match c {
        SscErrorCode::UnsupportedDate => 1,
        SscErrorCode::InvalidPressure => 2,
        SscErrorCode::InvalidTemperature => 3,
        SscErrorCode::InvalidDeltaUt1 => 4,
        SscErrorCode::InvalidDeltaT => 5,
        SscErrorCode::InvalidLongitude => 6,
        SscErrorCode::InvalidLatitude => 7,
        SscErrorCode::InvalidAtmosRefract => 8,
        SscErrorCode::InvalidElevation => 9,
    }
}

/// The error decoded from a non-zero status code.
pub open spec fn decoded_error(code: i32) -> SscError {
    if 1 <= code <= 9 {
        SscError::KnownCode(
            if code == 1 {
                SscErrorCode::UnsupportedDate
            } else if code == 2 {
                SscErrorCode::InvalidPressure
            } else if code == 3 {
                SscErrorCode::InvalidTemperature
            } else if code == 4 {
                SscErrorCode::InvalidDeltaUt1
            } else if code == 5 {
                SscErrorCode::InvalidDeltaT
            } else if code == 6 {
                SscErrorCode::InvalidLongitude
            } else if code == 7 {
                SscErrorCode::InvalidLatitude
            } else if code == 8 {
                SscErrorCode::InvalidAtmosRefract
            } else {
                SscErrorCode::InvalidElevation
            },
        )
    } else {
        SscError::UnknownCode(code)
    }
}

/// Decodes a native status code: zero means success, a known code maps to
/// its [`SscErrorCode`], and anything else is kept as an unknown code.
pub fn decode_status(code: i32) -> (r: Result<(), SscError>)
    ensures
        r is Ok <==> code == 0,
        r is Err ==> r->Err_0 == decoded_error(code),
        r matches Err(SscError::KnownCode(c)) ==> status_code_value(c) == code,
{
    match code {
        0 => Ok(()),
        1 => Err(SscError::KnownCode(SscErrorCode::UnsupportedDate)),
        2 => Err(SscError::KnownCode(SscErrorCode::InvalidPressure)),
        3 => Err(SscError::KnownCode(SscErrorCode::InvalidTemperature)),
        4 => Err(SscError::KnownCode(SscErrorCode::InvalidDeltaUt1)),
        5 => Err(SscError::KnownCode(SscErrorCode::InvalidDeltaT)),
        6 => Err(SscError::KnownCode(SscErrorCode::InvalidLongitude)),
        7 => Err(SscError::KnownCode(SscErrorCode::InvalidLatitude)),
        8 => Err(SscError::KnownCode(SscErrorCode::InvalidAtmosRefract)),
        9 => Err(SscError::KnownCode(SscErrorCode::InvalidElevation)),
        _ => Err(SscError::UnknownCode(code)),
    }
}

} // verus!
