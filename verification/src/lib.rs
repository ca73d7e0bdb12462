//! Binary protocol layer of a constant-function stable-swap automated market
//! maker: the tagged command codec, the versioned fixed-length pool record
//! codec, the closed catalogue of protocol errors, and the command builders.

pub mod error;
pub mod instruction;
pub mod state;
pub mod utils;

use crate::error::ProgramError;
use vstd::prelude::*;

verus! {

/// Pool-wide constant parameters.
pub struct PoolParameter {}

impl PoolParameter {
    /// Maximum number of coins in a pool.
    pub const MAX_N_COINS: usize = 4;
}

/// A 32-byte account identifier of the host runtime.
#[derive(Clone, Copy, Debug, PartialEq, Eq)]
pub struct Pubkey {
    /// The identifier's raw bytes.
    pub bytes: [u8; 32],
}

impl View for Pubkey {
    type V = Seq<u8>;

    open spec fn view(&self) -> Seq<u8> {
        self.bytes@
    }
}

impl Pubkey {
    /// Wraps a 32-byte array as an account identifier.
    pub fn new_from_array(bytes: [u8; 32]) -> (r: Pubkey)
        ensures
            r@ == bytes@,
    {
        Pubkey { bytes }
    }
}

/// The raw bytes of the one program identity this library builds commands
/// for.
pub const PROGRAM_ID_BYTES: [u8; 32] = [
    5, 46, 202, 54, 135, 99, 165, 149, 95, 98, 115, 78, 64, 231, 114, 151, 131, 136, 236, 43, 216,
    245, 12, 107, 242, 35, 242, 45, 36, 123, 66, 174,
];

/// The program identity this library builds commands for.
pub fn id() -> (r: Pubkey)
    ensures
        r@ == PROGRAM_ID_BYTES@,
{
    Pubkey { bytes: PROGRAM_ID_BYTES }
}

/// Checks that the supplied program identity is the expected one; any other
/// identity is rejected with `IncorrectProgramId`.
pub fn check_program_account(program_id: &Pubkey) -> (r: Result<(), ProgramError>)
    ensures
        r matches Ok(_) <==> program_id@ == PROGRAM_ID_BYTES@,
        r matches Err(e) ==> e == ProgramError::IncorrectProgramId,
{
    let expected = id();
    let mut i: usize = 0;
    while i < 32
        invariant
            i <= 32,
            expected@ == PROGRAM_ID_BYTES@,
            forall|j: int| 0 <= j < i ==> program_id@[j] == PROGRAM_ID_BYTES@[j],
        decreases 32 - i,
    {
        if program_id.bytes[i] != expected.bytes[i] {
            return Err(ProgramError::IncorrectProgramId);
        }
        i += 1;
    }
    proof {
        assert(program_id@ =~= PROGRAM_ID_BYTES@);
    }
    Ok(())
}

} // verus!
