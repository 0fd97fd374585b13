//! The error taxonomy shared by every operation.

use vstd::prelude::*;

verus! {

/// Why an operation was refused. A refused operation leaves the ledger as it
/// was.
#[derive(Clone, Copy, Debug, PartialEq, Eq, Structural)]
pub enum SaviaError {
    InvalidFee,
    InvalidGoal,
    InvalidDuration,
    CampaignNotFound,
    CampaignEnded,
    InvalidAmount,
    ScoreExists,
    InsufficientFunds,
    DisbursementNotFound,
    NotApproved,
    Unauthorized,
    CampaignInactive,
    InvalidInput,
    AlreadyInitialized,
}

impl SaviaError {
    /// The numeric code under which the error is reported to a host.
    pub open spec fn spec_code(self) -> u32 {
        match self {
            SaviaError::InvalidFee => 1,
            SaviaError::InvalidGoal => 2,
            SaviaError::InvalidDuration => 3,
            SaviaError::CampaignNotFound => 4,
            SaviaError::CampaignEnded => 5,
            SaviaError::InvalidAmount => 6,
            SaviaError::ScoreExists => 7,
            SaviaError::InsufficientFunds => 8,
            SaviaError::DisbursementNotFound => 9,
            SaviaError::NotApproved => 10,
            SaviaError::Unauthorized => 11,
            SaviaError::CampaignInactive => 12,
            SaviaError::InvalidInput => 13,
            SaviaError::AlreadyInitialized => 14,
        }
    }

    /// The numeric code under which the error is reported to a host.
    #[verifier::when_used_as_spec(spec_code)]
    pub fn code(self) -> (c: u32)
        ensures
            c == self.spec_code(),
            1 <= c <= 14,
    {
        match self {
            SaviaError::InvalidFee => 1,
            SaviaError::InvalidGoal => 2,
            SaviaError::InvalidDuration => 3,
            SaviaError::CampaignNotFound => 4,
            SaviaError::CampaignEnded => 5,
            SaviaError::InvalidAmount => 6,
            SaviaError::ScoreExists => 7,
            SaviaError::InsufficientFunds => 8,
            SaviaError::DisbursementNotFound => 9,
            SaviaError::NotApproved => 10,
            SaviaError::Unauthorized => 11,
            SaviaError::CampaignInactive => 12,
            SaviaError::InvalidInput => 13,
            SaviaError::AlreadyInitialized => 14,
        }
    }
}

/// Distinct errors have distinct codes.
pub proof fn lemma_codes_distinct(a: SaviaError, b: SaviaError)
    requires
        a.spec_code() == b.spec_code(),
    ensures
        a == b,
{
}

} // verus!
