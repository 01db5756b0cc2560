use vstd::prelude::*;

verus! {

/// The errors by which the program refuses an instruction.
///
/// On chain each variant is reported under the code `6000 + n`, where `n` is
/// its position in this list, and with the message given by [`ProtocolError::message`].
#[derive(Debug, Clone, Copy, PartialEq, Eq, Structural)]
pub enum ProtocolError {
    InvalidAdmin,
    ProtocolUnlocked,
    ProtocolLocked,
    InvalidMintAccount,
    MathOverflow,
    TimeElapsed,
    TimeNotElapsed,
    InvalidMaker,
    InvalidTimestamp,
    InvalidTokenAmount,
    InvalidInstruction,
    NoSharesAvailable,
    InvalidState,
    InvalidInheritor,
    InvalidProgram,
    InvalidTokenProgram,
}

/// Position of an error in the declaration of [`ProtocolError`].
pub open spec fn error_index(e: ProtocolError) -> nat {
    match e {
        ProtocolError::InvalidAdmin => 0,
        ProtocolError::ProtocolUnlocked => 1,
        ProtocolError::ProtocolLocked => 2,
        ProtocolError::InvalidMintAccount => 3,
        ProtocolError::MathOverflow => 4,
        ProtocolError::TimeElapsed => 5,
        ProtocolError::TimeNotElapsed => 6,
        ProtocolError::InvalidMaker => 7,
        ProtocolError::InvalidTimestamp => 8,
        ProtocolError::InvalidTokenAmount => 9,
        ProtocolError::InvalidInstruction => 10,
        ProtocolError::NoSharesAvailable => 11,
        ProtocolError::InvalidState => 12,
        ProtocolError::InvalidInheritor => 13,
        ProtocolError::InvalidProgram => 14,
        ProtocolError::InvalidTokenProgram => 15,
    }
}

/// The message that accompanies an error on chain.
pub open spec fn error_message(e: ProtocolError) -> Seq<char> {
    match e {
        ProtocolError::InvalidAdmin => "InvalidAdmin"@,
        ProtocolError::ProtocolUnlocked => "ProtocolUnlocked"@,
        ProtocolError::ProtocolLocked => "ProtocolLocked"@,
        ProtocolError::InvalidMintAccount => "InvalidMintAccount"@,
        ProtocolError::MathOverflow => "MathOverflow"@,
        ProtocolError::TimeElapsed => "TimeElapsed"@,
        ProtocolError::TimeNotElapsed => "TimeNotElapsed"@,
        ProtocolError::InvalidMaker => "InvalidMaker"@,
        ProtocolError::InvalidTimestamp => "InvalidTimestamp"@,
        ProtocolError::InvalidTokenAmount => "InvalidTokenAmount"@,
        ProtocolError::InvalidInstruction => "InvalidInstruction"@,
        ProtocolError::NoSharesAvailable => "NoSharesAvailable"@,
        ProtocolError::InvalidState => "InvalidState"@,
        ProtocolError::InvalidInheritor => "InvalidInheritor"@,
        ProtocolError::InvalidProgram => "InvalidProtocolProgram"@,
        ProtocolError::InvalidTokenProgram => "InvalidTokenProgram"@,
    }
}

/// Custom error codes start at this offset.
pub const ERROR_CODE_OFFSET: u32 = 6000;

impl ProtocolError {
    /// The numeric code under which the error is reported.
    pub fn code(&self) -> (r: u32)
        ensures
            r == ERROR_CODE_OFFSET + error_index(*self),
    {
        let index: u32 = match self {
            ProtocolError::InvalidAdmin => 0,
            ProtocolError::ProtocolUnlocked => 1,
            ProtocolError::ProtocolLocked => 2,
            ProtocolError::InvalidMintAccount => 3,
            ProtocolError::MathOverflow => 4,
            ProtocolError::TimeElapsed => 5,
            ProtocolError::TimeNotElapsed => 6,
            ProtocolError::InvalidMaker => 7,
            ProtocolError::InvalidTimestamp => 8,
            ProtocolError::InvalidTokenAmount => 9,
            ProtocolError::InvalidInstruction => 10,
            ProtocolError::NoSharesAvailable => 11,
            ProtocolError::InvalidState => 12,
            ProtocolError::InvalidInheritor => 13,
            ProtocolError::InvalidProgram => 14,
            ProtocolError::InvalidTokenProgram => 15,
        };
        ERROR_CODE_OFFSET + index
    }

    /// The message under which the error is reported.
    pub fn message(&self) -> (r: &'static str)
        ensures
            r@ == error_message(*self),
    {
        match self {
            ProtocolError::InvalidAdmin => "InvalidAdmin",
            ProtocolError::ProtocolUnlocked => "ProtocolUnlocked",
            ProtocolError::ProtocolLocked => "ProtocolLocked",
            ProtocolError::InvalidMintAccount => "InvalidMintAccount",
            ProtocolError::MathOverflow => "MathOverflow",
            ProtocolError::TimeElapsed => "TimeElapsed",
            ProtocolError::TimeNotElapsed => "TimeNotElapsed",
            ProtocolError::InvalidMaker => "InvalidMaker",
            ProtocolError::InvalidTimestamp => "InvalidTimestamp",
            ProtocolError::InvalidTokenAmount => "InvalidTokenAmount",
            ProtocolError::InvalidInstruction => "InvalidInstruction",
            ProtocolError::NoSharesAvailable => "NoSharesAvailable",
            ProtocolError::InvalidState => "InvalidState",
            ProtocolError::InvalidInheritor => "InvalidInheritor",
            ProtocolError::InvalidProgram => "InvalidProtocolProgram",
            ProtocolError::InvalidTokenProgram => "InvalidTokenProgram",
        }
    }
}

} // verus!
