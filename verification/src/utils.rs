//! Validated conversions between booleans and their one-byte wire encoding.

use crate::error::ProgramError;
use vstd::prelude::*;

verus! {

/// The boolean a wire byte encodes: only 0 and 1 are valid encodings.
pub open spec fn spec_byte_to_bool(b: u8) -> Result<bool, ProgramError> {
    if b == 0 {
        Ok(false)
    } else if b == 1 {
        Ok(true)
    } else {
        Err(ProgramError::InvalidAccountData)
    }
}

/// The one-byte wire encoding of a boolean.
pub open spec fn spec_bool_to_byte(b: bool) -> u8 {
    if b {
        1
    } else {
        0
    }
}

/// Converts a wire byte to a boolean; any byte other than 0 or 1 is rejected.
pub fn u8_to_bool(num: u8) -> (r: Result<bool, ProgramError>)
    ensures
        r == spec_byte_to_bool(num),
{
    match num {
        0 => Ok(false),
        1 => Ok(true),
        _ => Err(ProgramError::InvalidAccountData),
    }
}

/// Converts a boolean to its one-byte wire encoding.
pub fn bool_to_u8(b: bool) -> (r: u8)
    ensures
        r == spec_bool_to_byte(b),
{
    if b {
        1
    } else {
        0
    }
}

/// The byte encoding of a boolean is itself valid and decodes back to the
/// same boolean.
pub proof fn lemma_bool_byte_round_trip(b: bool)
    ensures
        spec_byte_to_bool(spec_bool_to_byte(b)) == Ok::<bool, ProgramError>(b),
{
}

} // verus!
