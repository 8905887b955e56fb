//! The ways in which an operation on the mint is refused.

use vstd::prelude::*;

verus! {

/// First code of the range in which the program reports its own errors.
pub const ERROR_CODE_OFFSET: u32 = 6000;

/// Why an operation was refused. A refused operation changes nothing.
#[derive(Clone, Copy, Debug, PartialEq, Eq, Structural)]
pub enum ErrorCode {
    /// The amount is zero.
    InvalidAmount,
    /// The signer is not the authority that the operation asks for.
    Unauthorized,
    /// The token account belongs to another mint.
    MintMismatch,
    /// The mint's address already holds a record.
    AlreadyInitialized,
    /// The ledger cannot take what the operation asks it to hold: the payer
    /// cannot cover the cost of the record, or an amount does not fit.
    AllocationFailed,
    /// The token account, or the mint, holds less than the amount.
    InsufficientBalance,
}

impl ErrorCode {
    /// Position of the variant in the declaration, from zero.
    pub open spec fn index(self) -> int {
        match self {
            ErrorCode::InvalidAmount => 0,
            ErrorCode::Unauthorized => 1,
            ErrorCode::MintMismatch => 2,
            ErrorCode::AlreadyInitialized => 3,
            ErrorCode::AllocationFailed => 4,
            ErrorCode::InsufficientBalance => 5,
        }
    }

    /// The number under which the error is reported.
    pub fn code(&self) -> (c: u32)
        ensures
            c == ERROR_CODE_OFFSET + self.index(),
    {
        match self {
            ErrorCode::InvalidAmount => ERROR_CODE_OFFSET,
            ErrorCode::Unauthorized => ERROR_CODE_OFFSET + 1,
            ErrorCode::MintMismatch => ERROR_CODE_OFFSET + 2,
            ErrorCode::AlreadyInitialized => ERROR_CODE_OFFSET + 3,
            ErrorCode::AllocationFailed => ERROR_CODE_OFFSET + 4,
            ErrorCode::InsufficientBalance => ERROR_CODE_OFFSET + 5,
        }
    }

    /// The text shown with the error.
    pub open spec fn spec_message(self) -> Seq<char> {
        match self {
            ErrorCode::InvalidAmount => "El monto debe ser mayor que cero."@,
            ErrorCode::Unauthorized => "El firmante no es la autoridad requerida."@,
            ErrorCode::MintMismatch => "La cuenta de tokens pertenece a otro mint."@,
            ErrorCode::AlreadyInitialized => "El mint ya fue inicializado."@,
            ErrorCode::AllocationFailed => "No se pudo reservar lo solicitado en el ledger."@,
            ErrorCode::InsufficientBalance => "Saldo insuficiente."@,
        }
    }

    /// The text shown with the error.
    pub fn message(&self) -> (m: &'static str)
        ensures
            m@ == self.spec_message(),
    {
        match self {
            ErrorCode::InvalidAmount => "El monto debe ser mayor que cero.",
            ErrorCode::Unauthorized => "El firmante no es la autoridad requerida.",
            ErrorCode::MintMismatch => "La cuenta de tokens pertenece a otro mint.",
            ErrorCode::AlreadyInitialized => "El mint ya fue inicializado.",
            ErrorCode::AllocationFailed => "No se pudo reservar lo solicitado en el ledger.",
            ErrorCode::InsufficientBalance => "Saldo insuficiente.",
        }
    }
}

} // verus!
