//! Faults an auction command can end in.

use vstd::prelude::*;

verus! {

/// Faults specific to the auction program.
#[derive(Clone, Copy, Debug, PartialEq, Eq, Structural)]
pub enum AuctionError {
    /// The record is already initialized.
    AlreadyInUse,
    /// The program address does not derive from the nonce and key.
    InvalidProgramAddress,
    /// The input account owner is not the program address.
    InvalidOwner,
    /// The output pool account owner is the program address.
    InvalidOutputOwner,
    /// The account data is not a token mint.
    ExpectedMint,
    /// The account data is not a token account.
    ExpectedAccount,
    /// The output is invalid.
    InvalidOutput,
    /// A calculation failed.
    CalculationFailure,
    /// The instruction bytes are malformed or of an unknown kind.
    InvalidInstruction,
    /// The pool fee account is not the expected one.
    IncorrectFeeAccount,
    /// The fee could not be computed.
    FeeCalculationFailure,
    /// A value does not fit the ledger's amount width.
    ConversionFailure,
    /// The fee schedule is not acceptable.
    InvalidFee,
    /// The account is owned by another token program than the expected one.
    IncorrectTokenProgramId,
    /// The auction has ended.
    Ended,
    /// The auction was canceled.
    Canceled,
}

/// Every fault a command of the program can end in.
#[derive(Clone, Copy, Debug, PartialEq, Eq, Structural)]
pub enum Fault {
    /// The record buffer does not decode.
    InvalidAccountData,
    /// An argument is not what the command needs.
    InvalidArgument,
    /// Fewer accounts were handed in than the command reads.
    NotEnoughAccountKeys,
    /// The ledger program is not the token program.
    IncorrectProgramId,
    /// A fault of the auction program itself.
    Custom(AuctionError),
}

impl AuctionError {
    /// The text that describes the fault.
    pub fn message(&self) -> (text: &'static str)
        ensures
            text@ == self.spec_message()@,
    {
        match self {
            AuctionError::AlreadyInUse => "Error: Farm account already in use",
            AuctionError::InvalidProgramAddress => {
                "Error: Invalid program address generated from nonce and key"
            },
            AuctionError::InvalidOwner => {
                "Error: The input account owner is not the program address"
            },
            AuctionError::InvalidOutputOwner => {
                "Error: Output pool account owner cannot be the program address"
            },
            AuctionError::ExpectedMint => "Error: Deserialized account is not an SPL Token mint",
            AuctionError::ExpectedAccount => {
                "Error: Deserialized account is not an SPL Token account"
            },
            AuctionError::InvalidOutput => "Error: InvalidOutput",
            AuctionError::CalculationFailure => "Error: CalculationFailure",
            AuctionError::InvalidInstruction => "Error: InvalidInstruction",
            AuctionError::IncorrectFeeAccount => "Error: Pool fee token account incorrect",
            AuctionError::FeeCalculationFailure => {
                "Error: The fee calculation failed due to overflow, underflow, or unexpected 0"
            },
            AuctionError::ConversionFailure => "Error: Conversion to or from u64 failed.",
            AuctionError::InvalidFee => {
                "Error: The provided fee does not match the program owner's constraints"
            },
            AuctionError::IncorrectTokenProgramId => {
                "Error: The provided token program does not match the token program expected by the auction"
            },
            AuctionError::Ended => "The auction was ended",
            AuctionError::Canceled => "The auction was canceled",
        }
    }

    /// The text of each fault.
    pub open spec fn spec_message(self) -> &'static str {
        match self {
            AuctionError::AlreadyInUse => "Error: Farm account already in use",
            AuctionError::InvalidProgramAddress => {
                "Error: Invalid program address generated from nonce and key"
            },
            AuctionError::InvalidOwner => {
                "Error: The input account owner is not the program address"
            },
            AuctionError::InvalidOutputOwner => {
                "Error: Output pool account owner cannot be the program address"
            },
            AuctionError::ExpectedMint => "Error: Deserialized account is not an SPL Token mint",
            AuctionError::ExpectedAccount => {
                "Error: Deserialized account is not an SPL Token account"
            },
            AuctionError::InvalidOutput => "Error: InvalidOutput",
            AuctionError::CalculationFailure => "Error: CalculationFailure",
            AuctionError::InvalidInstruction => "Error: InvalidInstruction",
            AuctionError::IncorrectFeeAccount => "Error: Pool fee token account incorrect",
            AuctionError::FeeCalculationFailure => {
                "Error: The fee calculation failed due to overflow, underflow, or unexpected 0"
            },
            AuctionError::ConversionFailure => "Error: Conversion to or from u64 failed.",
            AuctionError::InvalidFee => {
                "Error: The provided fee does not match the program owner's constraints"
            },
            AuctionError::IncorrectTokenProgramId => {
                "Error: The provided token program does not match the token program expected by the auction"
            },
            AuctionError::Ended => "The auction was ended",
            AuctionError::Canceled => "The auction was canceled",
        }
    }
}

} // verus!
