use vstd::prelude::*;

verus! {

/// Why an operation was refused. A refused operation changes nothing.
#[derive(Clone, Copy, Debug, PartialEq, Eq, Structural)]
pub enum PreSaleError {
    /// The caller is not the identity that the operation is reserved for.
    NotAllowedAuthority,
    /// An asset that the caller supplied is not the one the treasury is configured with.
    InvalidToken,
    /// A sum, product, power or quotient has no value in 64 bits; a zero price is such a case.
    ArithmeticOverflow,
    /// More was to be taken from a total than it holds.
    ArithmeticUnderflow,
    /// The transfer service refused a movement of value.
    TransferFailure,
    /// A record that must be created fresh exists already.
    AlreadyInitialized,
    /// The treasury has not been initialized.
    NotInitialized,
}

/// The number of the first error; the others follow in the order of declaration.
pub const ERROR_CODE_OFFSET: u32 = 6000;

impl PreSaleError {
    /// The error's place in the declaration, from zero.
    pub open spec fn index(self) -> nat {
        match self {
            PreSaleError::NotAllowedAuthority => 0,
            PreSaleError::InvalidToken => 1,
            PreSaleError::ArithmeticOverflow => 2,
            PreSaleError::ArithmeticUnderflow => 3,
            PreSaleError::TransferFailure => 4,
            PreSaleError::AlreadyInitialized => 5,
            PreSaleError::NotInitialized => 6,
        }
    }

    /// The text shown for the error.
    pub open spec fn text(self) -> Seq<char> {
        match self {
            PreSaleError::NotAllowedAuthority => "Not allowed authority"@,
            PreSaleError::InvalidToken => "Should be specied tokens"@,
            PreSaleError::ArithmeticOverflow => "Arithmetic overflow"@,
            PreSaleError::ArithmeticUnderflow => "Arithmetic underflow"@,
            PreSaleError::TransferFailure => "Transfer failed"@,
            PreSaleError::AlreadyInitialized => "Already initialized"@,
            PreSaleError::NotInitialized => "Not initialized"@,
        }
    }

    /// The stable number under which the error is reported.
    pub fn code(&self) -> (code: u32)
        ensures
            code == ERROR_CODE_OFFSET + self.index(),
    {
        match self {
            PreSaleError::NotAllowedAuthority => ERROR_CODE_OFFSET,
            PreSaleError::InvalidToken => ERROR_CODE_OFFSET + 1,
            PreSaleError::ArithmeticOverflow => ERROR_CODE_OFFSET + 2,
            PreSaleError::ArithmeticUnderflow => ERROR_CODE_OFFSET + 3,
            PreSaleError::TransferFailure => ERROR_CODE_OFFSET + 4,
            PreSaleError::AlreadyInitialized => ERROR_CODE_OFFSET + 5,
            PreSaleError::NotInitialized => ERROR_CODE_OFFSET + 6,
        }
    }

    /// The message shown to the caller.
    pub fn message(&self) -> (text: String)
        ensures
            text@ == self.text(),
    {
        match self {
            PreSaleError::NotAllowedAuthority => "Not allowed authority".to_owned(),
            PreSaleError::InvalidToken => "Should be specied tokens".to_owned(),
            PreSaleError::ArithmeticOverflow => "Arithmetic overflow".to_owned(),
            PreSaleError::ArithmeticUnderflow => "Arithmetic underflow".to_owned(),
            PreSaleError::TransferFailure => "Transfer failed".to_owned(),
            PreSaleError::AlreadyInitialized => "Already initialized".to_owned(),
            PreSaleError::NotInitialized => "Not initialized".to_owned(),
        }
    }
}

} // verus!
