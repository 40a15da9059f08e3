//! The errors with which a transition fails.

use vstd::prelude::*;

verus! {

/// Why a transition was refused. A refused transition changes nothing.
#[derive(Clone, Copy, Debug, PartialEq, Eq, Structural)]
pub enum ClockPayError {
    /// The instruction bytes are empty or start with an unknown tag.
    InvalidInstruction,
    /// The bytes after the tag are not the arguments of the instruction.
    InvalidInstructionData,
    /// Fewer accounts were supplied than the instruction reads.
    NotEnoughAccountKeys,
    /// The data of an account does not hold the record it should.
    InvalidAccountData,
    /// A caller or co-signer is not the expected authority, or did not sign.
    AuthorityMismatch,
    /// A supplied account is not the one that the seeds or the record name.
    AddressMismatch,
    /// The asset of the recipient differs from the asset of the pool.
    AssetMismatch,
    /// A record already exists at the derived address.
    DuplicateRecord,
    /// The schedule has run all its cycles.
    CycleLimitExhausted,
    /// A checked addition would wrap.
    ArithmeticOverflow,
    /// A checked subtraction would wrap.
    ArithmeticUnderflow,
    /// The count of active schedules cannot grow further.
    CounterOverflow,
    /// The cadence descriptor is empty or too long.
    InvalidString,
}

impl ClockPayError {
    /// The number under which the host reports the error.
    pub open spec fn spec_code(self) -> u32 {
        match self {
            ClockPayError::InvalidInstruction => 0,
            ClockPayError::InvalidInstructionData => 1,
            ClockPayError::NotEnoughAccountKeys => 2,
            ClockPayError::InvalidAccountData => 3,
            ClockPayError::AuthorityMismatch => 4,
            ClockPayError::AddressMismatch => 5,
            ClockPayError::AssetMismatch => 6,
            ClockPayError::DuplicateRecord => 7,
            ClockPayError::CycleLimitExhausted => 8,
            ClockPayError::ArithmeticOverflow => 9,
            ClockPayError::ArithmeticUnderflow => 10,
            ClockPayError::CounterOverflow => 11,
            ClockPayError::InvalidString => 12,
        }
    }

    /// The number under which the host reports the error: the position of
    /// the variant, counted from zero.
    #[verifier::when_used_as_spec(spec_code)]
    pub fn code(self) -> (n: u32)
        ensures
            n == self.spec_code(),
            n <= 12,
    {
        match self {
            ClockPayError::InvalidInstruction => 0,
            ClockPayError::InvalidInstructionData => 1,
            ClockPayError::NotEnoughAccountKeys => 2,
            ClockPayError::InvalidAccountData => 3,
            ClockPayError::AuthorityMismatch => 4,
            ClockPayError::AddressMismatch => 5,
            ClockPayError::AssetMismatch => 6,
            ClockPayError::DuplicateRecord => 7,
            ClockPayError::CycleLimitExhausted => 8,
            ClockPayError::ArithmeticOverflow => 9,
            ClockPayError::ArithmeticUnderflow => 10,
            ClockPayError::CounterOverflow => 11,
            ClockPayError::InvalidString => 12,
        }
    }

    /// The error with the given number, if there is one.
    pub fn from_code(n: u32) -> (e: Option<ClockPayError>)
        ensures
            n <= 12 <==> e is Some,
            e matches Some(x) ==> x.spec_code() == n,
    {
        match n {
            0 => Some(ClockPayError::InvalidInstruction),
            1 => Some(ClockPayError::InvalidInstructionData),
            2 => Some(ClockPayError::NotEnoughAccountKeys),
            3 => Some(ClockPayError::InvalidAccountData),
            4 => Some(ClockPayError::AuthorityMismatch),
            5 => Some(ClockPayError::AddressMismatch),
            6 => Some(ClockPayError::AssetMismatch),
            7 => Some(ClockPayError::DuplicateRecord),
            8 => Some(ClockPayError::CycleLimitExhausted),
            9 => Some(ClockPayError::ArithmeticOverflow),
            10 => Some(ClockPayError::ArithmeticUnderflow),
            11 => Some(ClockPayError::CounterOverflow),
            12 => Some(ClockPayError::InvalidString),
            _ => None,
        }
    }

    /// The text of the error.
    pub open spec fn spec_message(self) -> Seq<char> {
        match self {
            ClockPayError::InvalidInstruction => "Invalid instruction"@,
            ClockPayError::InvalidInstructionData => "Invalid instruction data"@,
            ClockPayError::NotEnoughAccountKeys => "Not enough accounts"@,
            ClockPayError::InvalidAccountData => "Invalid account data"@,
            ClockPayError::AuthorityMismatch => "Wrong authority for this instruction"@,
            ClockPayError::AddressMismatch => "Invalid account"@,
            ClockPayError::AssetMismatch => "Wrong token mint"@,
            ClockPayError::DuplicateRecord => "Tried to create an existing account"@,
            ClockPayError::CycleLimitExhausted => "Tried exceeding the payment limit"@,
            ClockPayError::ArithmeticOverflow => "Arithmetic overflow"@,
            ClockPayError::ArithmeticUnderflow => "Arithmetic underflow"@,
            ClockPayError::CounterOverflow => "Too many active schedules"@,
            ClockPayError::InvalidString => "Invalid string"@,
        }
    }

    /// The text of the error.
    pub fn message(self) -> (text: String)
        ensures
            text@ == self.spec_message(),
    {
        match self {
            ClockPayError::InvalidInstruction => "Invalid instruction".to_owned(),
            ClockPayError::InvalidInstructionData => "Invalid instruction data".to_owned(),
            ClockPayError::NotEnoughAccountKeys => "Not enough accounts".to_owned(),
            ClockPayError::InvalidAccountData => "Invalid account data".to_owned(),
            ClockPayError::AuthorityMismatch => "Wrong authority for this instruction".to_owned(),
            ClockPayError::AddressMismatch => "Invalid account".to_owned(),
            ClockPayError::AssetMismatch => "Wrong token mint".to_owned(),
            ClockPayError::DuplicateRecord => "Tried to create an existing account".to_owned(),
            ClockPayError::CycleLimitExhausted => "Tried exceeding the payment limit".to_owned(),
            ClockPayError::ArithmeticOverflow => "Arithmetic overflow".to_owned(),
            ClockPayError::ArithmeticUnderflow => "Arithmetic underflow".to_owned(),
            ClockPayError::CounterOverflow => "Too many active schedules".to_owned(),
            ClockPayError::InvalidString => "Invalid string".to_owned(),
        }
    }
}

} // verus!
