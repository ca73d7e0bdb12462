//! Closed catalogue of protocol failure kinds, each mapped to a stable small
//! integer code usable as a cross-boundary status.

use vstd::prelude::*;

verus! {

/// Status returned across the protocol boundary: either one of the host
/// runtime's well-known failure kinds, or a swap-specific kind carried as its
/// numeric code in `Custom`.
#[derive(Clone, Copy, Debug, PartialEq, Eq, Structural)]
pub enum ProgramError {
    /// A swap-specific failure, carried as its stable numeric code.
    Custom(u32),
    /// A buffer does not hold what its position requires.
    InvalidAccountData,
    /// A record's version byte names no known version, or the record is not
    /// yet initialized.
    UninitializedAccount,
    /// A builder was handed a program identity other than the expected one.
    IncorrectProgramId,
}

/// The closed set of swap failure kinds. The catalogue is densely numbered:
/// each kind maps to the stable code given by [`spec_error_code`].
#[derive(Clone, Copy, Debug, PartialEq, Eq, Structural)]
pub enum SwapError {
    /// A command buffer is malformed: truncated or otherwise unreadable.
    InvalidInstruction,
    /// The account is not rent exempt.
    NotRentExempt,
    /// The pool authority address could not be derived.
    InvalidProgramAddress,
    /// The token program account handed in is not the token program.
    IncorrectTokenProgramId,
    /// A token account was expected.
    ExpectedAccount,
    /// A mint account was expected.
    ExpectedMint,
    /// An account has the wrong owner.
    InvalidOwner,
    /// A token account does not match its expected mint.
    InvalidTokenMatch,
    /// A numeric conversion failed.
    InvalidConversion,
    /// The initial deposit is invalid.
    InvalidInitialDeposit,
    /// A curve calculation failed.
    InvalidCalculation,
    /// The trade would exceed the allowed slippage.
    ExceededSlippage,
    /// An exchange account is invalid.
    InvalidExchangeAccount,
    /// A mint account is invalid.
    InvalidMint,
    /// The swap is already initialized.
    SwapAlreadyInitialized,
    /// A token account is frozen.
    TokenAccountFrozen,
    /// A token account has a delegate set.
    DelegatedTokenAccount,
    /// A mint has a freeze authority set.
    MintFreezeAuthoritySet,
    /// A token account has a close authority set.
    CloseAuthoritySet,
    /// The same mint appears twice among the pool's coins.
    RepeatedMint,
    /// A token account is not empty.
    TokenAccountNotEmpty,
    /// The pool token supply is not empty.
    PoolTokenSupplyNotEmpty,
    /// A token account is invalid.
    InvalidTokenAccount,
    /// The admin mint's decimals are invalid.
    InvalidAdminMintDecimals,
    /// Swapping is currently disabled.
    SwapDisabled,
    /// Adding liquidity is currently disabled.
    AddLiquidityDisabled,
    /// The caller holds no admin tokens.
    NoAdminTokens,
    /// The admin token account's delegate is invalid.
    InvalidAdminDelegate,
    /// The admin token account is frozen.
    AdminTokenAccountFrozen,
    /// The pool token mint's decimals are invalid.
    PoolTokenDecimalsInvalid,
}

/// Stable numeric code of each failure kind: the kinds are numbered densely
/// from 0 in catalogue order.
pub open spec fn spec_error_code(e: SwapError) -> u32 {
    match e {
        SwapError::InvalidInstruction => 0,
        SwapError::NotRentExempt => 1,
        SwapError::InvalidProgramAddress => 2,
        SwapError::IncorrectTokenProgramId => 3,
        SwapError::ExpectedAccount => 4,
        SwapError::ExpectedMint => 5,
        SwapError::InvalidOwner => 6,
        SwapError::InvalidTokenMatch => 7,
        SwapError::InvalidConversion => 8,
        SwapError::InvalidInitialDeposit => 9,
        SwapError::InvalidCalculation => 10,
        SwapError::ExceededSlippage => 11,
        SwapError::InvalidExchangeAccount => 12,
        SwapError::InvalidMint => 13,
        SwapError::SwapAlreadyInitialized => 14,
        SwapError::TokenAccountFrozen => 15,
        SwapError::DelegatedTokenAccount => 16,
        SwapError::MintFreezeAuthoritySet => 17,
        SwapError::CloseAuthoritySet => 18,
        SwapError::RepeatedMint => 19,
        SwapError::TokenAccountNotEmpty => 20,
        SwapError::PoolTokenSupplyNotEmpty => 21,
        SwapError::InvalidTokenAccount => 22,
        SwapError::InvalidAdminMintDecimals => 23,
        SwapError::SwapDisabled => 24,
        SwapError::AddLiquidityDisabled => 25,
        SwapError::NoAdminTokens => 26,
        SwapError::InvalidAdminDelegate => 27,
        SwapError::AdminTokenAccountFrozen => 28,
        SwapError::PoolTokenDecimalsInvalid => 29,
    }
}

/// The failure kind a numeric code names, or `None` for a code outside the
/// catalogue.
pub open spec fn spec_error_from_code(code: u32) -> Option<SwapError> {
    if code == 0 {
        Some(SwapError::InvalidInstruction)
    } else if code == 1 {
        Some(SwapError::NotRentExempt)
    } else if code == 2 {
        Some(SwapError::InvalidProgramAddress)
    } else if code == 3 {
        Some(SwapError::IncorrectTokenProgramId)
    } else if code == 4 {
        Some(SwapError::ExpectedAccount)
    } else if code == 5 {
        Some(SwapError::ExpectedMint)
    } else if code == 6 {
        Some(SwapError::InvalidOwner)
    } else if code == 7 {
        Some(SwapError::InvalidTokenMatch)
    } else if code == 8 {
        Some(SwapError::InvalidConversion)
    } else if code == 9 {
        Some(SwapError::InvalidInitialDeposit)
    } else if code == 10 {
        Some(SwapError::InvalidCalculation)
    } else if code == 11 {
        Some(SwapError::ExceededSlippage)
    } else if code == 12 {
        Some(SwapError::InvalidExchangeAccount)
    } else if code == 13 {
        Some(SwapError::InvalidMint)
    } else if code == 14 {
        Some(SwapError::SwapAlreadyInitialized)
    } else if code == 15 {
        Some(SwapError::TokenAccountFrozen)
    } else if code == 16 {
        Some(SwapError::DelegatedTokenAccount)
    } else if code == 17 {
        Some(SwapError::MintFreezeAuthoritySet)
    } else if code == 18 {
        Some(SwapError::CloseAuthoritySet)
    } else if code == 19 {
        Some(SwapError::RepeatedMint)
    } else if code == 20 {
        Some(SwapError::TokenAccountNotEmpty)
    } else if code == 21 {
        Some(SwapError::PoolTokenSupplyNotEmpty)
    } else if code == 22 {
        Some(SwapError::InvalidTokenAccount)
    } else if code == 23 {
        Some(SwapError::InvalidAdminMintDecimals)
    } else if code == 24 {
        Some(SwapError::SwapDisabled)
    } else if code == 25 {
        Some(SwapError::AddLiquidityDisabled)
    } else if code == 26 {
        Some(SwapError::NoAdminTokens)
    } else if code == 27 {
        Some(SwapError::InvalidAdminDelegate)
    } else if code == 28 {
        Some(SwapError::AdminTokenAccountFrozen)
    } else if code == 29 {
        Some(SwapError::PoolTokenDecimalsInvalid)
    } else {
        None
    }
}

impl SwapError {
    /// The stable numeric code of this failure kind.
    pub fn code(&self) -> (r: u32)
        ensures
            r == spec_error_code(*self),
    {
        match self {
            SwapError::InvalidInstruction => 0,
            SwapError::NotRentExempt => 1,
            SwapError::InvalidProgramAddress => 2,
            SwapError::IncorrectTokenProgramId => 3,
            SwapError::ExpectedAccount => 4,
            SwapError::ExpectedMint => 5,
            SwapError::InvalidOwner => 6,
            SwapError::InvalidTokenMatch => 7,
            SwapError::InvalidConversion => 8,
            SwapError::InvalidInitialDeposit => 9,
            SwapError::InvalidCalculation => 10,
            SwapError::ExceededSlippage => 11,
            SwapError::InvalidExchangeAccount => 12,
            SwapError::InvalidMint => 13,
            SwapError::SwapAlreadyInitialized => 14,
            SwapError::TokenAccountFrozen => 15,
            SwapError::DelegatedTokenAccount => 16,
            SwapError::MintFreezeAuthoritySet => 17,
            SwapError::CloseAuthoritySet => 18,
            SwapError::RepeatedMint => 19,
            SwapError::TokenAccountNotEmpty => 20,
            SwapError::PoolTokenSupplyNotEmpty => 21,
            SwapError::InvalidTokenAccount => 22,
            SwapError::InvalidAdminMintDecimals => 23,
            SwapError::SwapDisabled => 24,
            SwapError::AddLiquidityDisabled => 25,
            SwapError::NoAdminTokens => 26,
            SwapError::InvalidAdminDelegate => 27,
            SwapError::AdminTokenAccountFrozen => 28,
            SwapError::PoolTokenDecimalsInvalid => 29,
        }
    }

    /// The failure kind that a numeric code names, if the code is in the
    /// catalogue.
    pub fn from_code(code: u32) -> (r: Option<SwapError>)
        ensures
            r == spec_error_from_code(code),
    {
        match code {
            0 => Some(SwapError::InvalidInstruction),
            1 => Some(SwapError::NotRentExempt),
            2 => Some(SwapError::InvalidProgramAddress),
            3 => Some(SwapError::IncorrectTokenProgramId),
            4 => Some(SwapError::ExpectedAccount),
            5 => Some(SwapError::ExpectedMint),
            6 => Some(SwapError::InvalidOwner),
            7 => Some(SwapError::InvalidTokenMatch),
            8 => Some(SwapError::InvalidConversion),
            9 => Some(SwapError::InvalidInitialDeposit),
            10 => Some(SwapError::InvalidCalculation),
            11 => Some(SwapError::ExceededSlippage),
            12 => Some(SwapError::InvalidExchangeAccount),
            13 => Some(SwapError::InvalidMint),
            14 => Some(SwapError::SwapAlreadyInitialized),
            15 => Some(SwapError::TokenAccountFrozen),
            16 => Some(SwapError::DelegatedTokenAccount),
            17 => Some(SwapError::MintFreezeAuthoritySet),
            18 => Some(SwapError::CloseAuthoritySet),
            19 => Some(SwapError::RepeatedMint),
            20 => Some(SwapError::TokenAccountNotEmpty),
            21 => Some(SwapError::PoolTokenSupplyNotEmpty),
            22 => Some(SwapError::InvalidTokenAccount),
            23 => Some(SwapError::InvalidAdminMintDecimals),
            24 => Some(SwapError::SwapDisabled),
            25 => Some(SwapError::AddLiquidityDisabled),
            26 => Some(SwapError::NoAdminTokens),
            27 => Some(SwapError::InvalidAdminDelegate),
            28 => Some(SwapError::AdminTokenAccountFrozen),
            29 => Some(SwapError::PoolTokenDecimalsInvalid),
            _ => None,
        }
    }

    /// Human-readable label of this failure kind.
    pub fn message(&self) -> (r: &'static str)
        ensures
            r@ == spec_error_message(*self),
    {
        match self {
            SwapError::InvalidInstruction => "Invalid Instruction",
            SwapError::NotRentExempt => "Not Rent Exempt",
            SwapError::InvalidProgramAddress => "Invalid Program Address",
            SwapError::IncorrectTokenProgramId => "Incorrect Token Program Id",
            SwapError::ExpectedAccount => "Expected Account",
            SwapError::ExpectedMint => "Expected Mint",
            SwapError::InvalidOwner => "Invalid Owner",
            SwapError::InvalidTokenMatch => "Invalid Token Match",
            SwapError::InvalidConversion => "Invalid Conversion",
            SwapError::InvalidInitialDeposit => "Invalid Initial Deposit",
            SwapError::InvalidCalculation => "Invalid Calculation",
            SwapError::ExceededSlippage => "ExceededSlippage",
            SwapError::InvalidExchangeAccount => "Invalid Exchange Account",
            SwapError::InvalidMint => "Invalid Mint",
            SwapError::SwapAlreadyInitialized => "Swap Already Initialized",
            SwapError::TokenAccountFrozen => "Token Account Frozen",
            SwapError::DelegatedTokenAccount => "Delegated Token Account",
            SwapError::MintFreezeAuthoritySet => "Mint Freeze Authority Set",
            SwapError::CloseAuthoritySet => "Close Authority Set",
            SwapError::RepeatedMint => "Repeated Mint",
            SwapError::TokenAccountNotEmpty => "Token Account Not Empty",
            SwapError::PoolTokenSupplyNotEmpty => "Pool Token Supply Not Empty",
            SwapError::InvalidTokenAccount => "Invalid Token Account",
            SwapError::InvalidAdminMintDecimals => "Invalid Admin Mint Decimals",
            SwapError::SwapDisabled => "Swap Disabled",
            SwapError::AddLiquidityDisabled => "Add Liquidity Disabled",
            SwapError::NoAdminTokens => "Admin Only",
            SwapError::InvalidAdminDelegate => "Invalid Admin Delegate",
            SwapError::AdminTokenAccountFrozen => "Admin Token Account Frozen",
            SwapError::PoolTokenDecimalsInvalid => "Pool Token Decimals Invalid",
        }
    }
}

/// Label of each failure kind, as a sequence of characters.
pub open spec fn spec_error_message(e: SwapError) -> Seq<char> {
    match e {
        SwapError::InvalidInstruction => "Invalid Instruction"@,
        SwapError::NotRentExempt => "Not Rent Exempt"@,
        SwapError::InvalidProgramAddress => "Invalid Program Address"@,
        SwapError::IncorrectTokenProgramId => "Incorrect Token Program Id"@,
        SwapError::ExpectedAccount => "Expected Account"@,
        SwapError::ExpectedMint => "Expected Mint"@,
        SwapError::InvalidOwner => "Invalid Owner"@,
        SwapError::InvalidTokenMatch => "Invalid Token Match"@,
        SwapError::InvalidConversion => "Invalid Conversion"@,
        SwapError::InvalidInitialDeposit => "Invalid Initial Deposit"@,
        SwapError::InvalidCalculation => "Invalid Calculation"@,
        SwapError::ExceededSlippage => "ExceededSlippage"@,
        SwapError::InvalidExchangeAccount => "Invalid Exchange Account"@,
        SwapError::InvalidMint => "Invalid Mint"@,
        SwapError::SwapAlreadyInitialized => "Swap Already Initialized"@,
        SwapError::TokenAccountFrozen => "Token Account Frozen"@,
        SwapError::DelegatedTokenAccount => "Delegated Token Account"@,
        SwapError::MintFreezeAuthoritySet => "Mint Freeze Authority Set"@,
        SwapError::CloseAuthoritySet => "Close Authority Set"@,
        SwapError::RepeatedMint => "Repeated Mint"@,
        SwapError::TokenAccountNotEmpty => "Token Account Not Empty"@,
        SwapError::PoolTokenSupplyNotEmpty => "Pool Token Supply Not Empty"@,
        SwapError::InvalidTokenAccount => "Invalid Token Account"@,
        SwapError::InvalidAdminMintDecimals => "Invalid Admin Mint Decimals"@,
        SwapError::SwapDisabled => "Swap Disabled"@,
        SwapError::AddLiquidityDisabled => "Add Liquidity Disabled"@,
        SwapError::NoAdminTokens => "Admin Only"@,
        SwapError::InvalidAdminDelegate => "Invalid Admin Delegate"@,
        SwapError::AdminTokenAccountFrozen => "Admin Token Account Frozen"@,
        SwapError::PoolTokenDecimalsInvalid => "Pool Token Decimals Invalid"@,
    }
}

/// A swap failure crosses the protocol boundary as its numeric code.
impl From<SwapError> for ProgramError {
    fn from(e: SwapError) -> (r: ProgramError)
        ensures
            r == ProgramError::Custom(spec_error_code(e)),
    {
        ProgramError::Custom(e.code())
    }
}

impl vstd::std_specs::convert::FromSpecImpl<SwapError> for ProgramError {
    open spec fn obeys_from_spec() -> bool {
        true
    }

    open spec fn from_spec(e: SwapError) -> ProgramError {
        ProgramError::Custom(spec_error_code(e))
    }
}

/// Round trip of the code mapping: every failure kind is recovered from its
/// own code.
pub proof fn lemma_error_code_round_trip(e: SwapError)
    ensures
        spec_error_from_code(spec_error_code(e)) == Some(e),
{
}

} // verus!
