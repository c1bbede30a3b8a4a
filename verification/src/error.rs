use vstd::prelude::*;
use solana_program::program_error::ProgramError;

verus! {

/// The runtime's error type, carried through unchanged.
#[verifier::external_type_specification]
#[verifier::external_body]
pub struct ExProgramError(ProgramError);

/// The builtin code of `ProgramError::InvalidAccountData` (builtin error 4,
/// shifted into the upper half of the 64-bit code).
pub const INVALID_ACCOUNT_DATA: u64 = 4u64 << 32u64;

/// What `ProgramError::from(code)` gives for a numeric error code.
pub uninterp spec fn program_error_of(code: u64) -> ProgramError;

/// Calls `ProgramError::from(u64)` of solana-program, which maps a numeric
/// error code to the runtime's error value; the contract only names the result.
#[verifier::external_body]
pub(crate) fn program_error_from_code(code: u64) -> (e: ProgramError)
    ensures
        e == program_error_of(code),
{
    ProgramError::from(code)
}

/// `ProgramError` derives `Clone`, so a clone equals the value it copies.
pub assume_specification[ <solana_program::program_error::ProgramError as std::clone::Clone>::clone ](
    e: &solana_program::program_error::ProgramError,
) -> (r: solana_program::program_error::ProgramError)
    ensures
        r == *e,
;

pub type TradeBotResult<T> = Result<T, TradeBotErrors>;

#[derive(Debug, PartialEq, Eq)]
pub enum TradeBotError {
    Errors(TradeBotErrors),
    ProgramError(ProgramError),
}

/// The errors that the trade bot reports.
#[derive(Debug, Clone, PartialEq, Eq)]
pub enum TradeBotErrors {
    UnknownInstruction,
    InvalidInstruction,
    MarketAlreadyInitialized,
    MarketNotKnown,
    Unauthorized,
    TraderExists,
    InsufficientTokens,
    ProgramErr(ProgramError),
    UnknownError,
    NoTradesFoundOnMarket,
    ExceededOpenOrdersLimit,
    StopLossLimit,
    PriceAlreadyTraded,
}

} // verus!
