use vstd::prelude::*;

verus! {

/// Errors the program reports when it refuses an instruction.
#[derive(Debug, Clone, Copy, PartialEq, Eq, Structural)]
pub enum PixelError {
    NotInitialized,
    AlreadyInitialized,
    InvalidParam,
    SlippageExceed,
    SoldAllToken,
    NotEnoughToken,
    NotEnoughAmount,
    EpochExceed,
}

/// The text reported with each refusal.
pub open spec fn error_message(e: PixelError) -> Seq<char> {
    match e {
        PixelError::NotInitialized => "Account Not Initialized"@,
        PixelError::AlreadyInitialized => "Account Already Initialized"@,
        PixelError::InvalidParam => "Invalid Parameters"@,
        PixelError::SlippageExceed => "Slippage Exceed"@,
        PixelError::SoldAllToken => "Sold All Tokens"@,
        PixelError::NotEnoughToken => "Not Enough Tokens"@,
        PixelError::NotEnoughAmount => "Not Enough Amount"@,
        PixelError::EpochExceed => "Epoch Exceed"@,
    }
}

impl PixelError {
    /// The text reported with this refusal.
    pub fn message(&self) -> (m: &'static str)
        ensures
            m@ == error_message(*self),
    {
        match self {
            PixelError::NotInitialized => "Account Not Initialized",
            PixelError::AlreadyInitialized => "Account Already Initialized",
            PixelError::InvalidParam => "Invalid Parameters",
            PixelError::SlippageExceed => "Slippage Exceed",
            PixelError::SoldAllToken => "Sold All Tokens",
            PixelError::NotEnoughToken => "Not Enough Tokens",
            PixelError::NotEnoughAmount => "Not Enough Amount",
            PixelError::EpochExceed => "Epoch Exceed",
        }
    }
}

/// Error raised when moving lamports between two balances is impossible.
#[derive(Debug, Clone, Copy, PartialEq, Eq, Structural)]
pub enum LamportsError {
    InsufficientFunds,
}

} // verus!
