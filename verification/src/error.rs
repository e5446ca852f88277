//! Why an operation on an account was refused.

use vstd::prelude::*;
use vstd::string::*;

verus! {

/// The message carried by the refusal of a negative deposit.
pub const NEGATIVE_DEPOSIT_MESSAGE: &'static str = "Cannot deposit a negative amount";

/// The message that stands for a refused withdrawal.
pub const INSUFFICIENT_FUNDS_MESSAGE: &'static str = "Insufficient funds";

/// A refused operation. The account is left as it was.
#[derive(Debug, PartialEq, Eq)]
pub enum AccountError {
    /// The amount of a deposit was negative.
    InvalidAmount { message: String },
    /// The amount of a withdrawal was negative or more than the balance.
    InsufficientFunds,
}

impl AccountError {
    /// The text that describes this error.
    pub open spec fn text(self) -> Seq<char> {
        match self {
            AccountError::InvalidAmount { message } => message@,
            AccountError::InsufficientFunds => INSUFFICIENT_FUNDS_MESSAGE@,
        }
    }

    /// Renders the error for a reader.
    pub fn message(&self) -> (text: String)
        ensures
            text@ == self.text(),
    {
        match self {
            AccountError::InvalidAmount { message } => message.clone(),
            AccountError::InsufficientFunds => String::from_str(INSUFFICIENT_FUNDS_MESSAGE),
        }
    }
}

} // verus!
