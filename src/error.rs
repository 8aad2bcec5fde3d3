use vstd::prelude::*;

verus! {

/// The class an error belongs to.
#[derive(Clone, Copy, Debug, PartialEq, Eq, Structural)]
pub enum ErrorKind {
    /// Malformed input or a stored value that does not decode.
    Validation,
    /// The operation is not allowed in the current status.
    State,
    /// A second attempt by the same participant within the same scope.
    Duplicate,
    /// Overflow, underflow or division by zero.
    Arithmetic,
    /// The records handed in do not belong together.
    Authorization,
}

/// Every way an operation of this library can fail. A failed operation leaves
/// every record it was given unchanged.
#[derive(Clone, Copy, Debug, PartialEq, Eq, Structural)]
pub enum ErrorCode {
    InvalidTarget,
    /// A campaign must have at least one round.
    InvalidRoundCount,
    DescriptionTooLong,
    InvalidStatus,
    CampaignInactive,
    CantStartNextRound,
    CantExceedMaxRound,
    CantExceedCampaignTarget,
    RoundClosedToDonations,
    VotingEnded,
    InvalidVoterType,
    InvalidModeratorType,
    VotingStillActive,
    RoundHasntEnded,
    /// The round has not reached its target, so there is nothing to vote on.
    RoundTargetNotMet,
    /// The round already has a vote record.
    VotingAlreadyInitialized,
    /// The campaign was ruled invalid by moderation.
    CampaignInvalid,
    /// The campaign has ended.
    CampaignEnded,
    StakingAlreadyInitialized,
    StakingNotInitialized,
    /// There is no stake to return.
    NotStaked,
    AlreadyDonated,
    AlreadyVoted,
    /// The record that the operation would create already exists.
    AccountAlreadyInitialized,
    /// A key held by one record does not name the record handed in beside it.
    AccountMismatch,
    ArithmeticOverflow,
    DivisionByZero,
}

impl ErrorCode {
    pub open spec fn spec_kind(self) -> ErrorKind {
        match self {
            ErrorCode::InvalidTarget => ErrorKind::Validation,
            ErrorCode::InvalidRoundCount => ErrorKind::Validation,
            ErrorCode::DescriptionTooLong => ErrorKind::Validation,
            ErrorCode::InvalidStatus => ErrorKind::Validation,
            ErrorCode::CampaignInactive => ErrorKind::State,
            ErrorCode::CantStartNextRound => ErrorKind::State,
            ErrorCode::CantExceedMaxRound => ErrorKind::State,
            ErrorCode::CantExceedCampaignTarget => ErrorKind::Validation,
            ErrorCode::RoundClosedToDonations => ErrorKind::State,
            ErrorCode::VotingEnded => ErrorKind::State,
            ErrorCode::InvalidVoterType => ErrorKind::Validation,
            ErrorCode::InvalidModeratorType => ErrorKind::Validation,
            ErrorCode::VotingStillActive => ErrorKind::State,
            ErrorCode::RoundHasntEnded => ErrorKind::State,
            ErrorCode::RoundTargetNotMet => ErrorKind::State,
            ErrorCode::VotingAlreadyInitialized => ErrorKind::State,
            ErrorCode::CampaignInvalid => ErrorKind::State,
            ErrorCode::CampaignEnded => ErrorKind::State,
            ErrorCode::StakingAlreadyInitialized => ErrorKind::State,
            ErrorCode::StakingNotInitialized => ErrorKind::State,
            ErrorCode::NotStaked => ErrorKind::State,
            ErrorCode::AlreadyDonated => ErrorKind::Duplicate,
            ErrorCode::AlreadyVoted => ErrorKind::Duplicate,
            ErrorCode::AccountAlreadyInitialized => ErrorKind::Duplicate,
            ErrorCode::AccountMismatch => ErrorKind::Authorization,
            ErrorCode::ArithmeticOverflow => ErrorKind::Arithmetic,
            ErrorCode::DivisionByZero => ErrorKind::Arithmetic,
        }
    }

    /// The class of this error.
    pub fn kind(&self) -> (r: ErrorKind)
        ensures
            r == self.spec_kind(),
    {
        match self {
            ErrorCode::InvalidTarget => ErrorKind::Validation,
            ErrorCode::InvalidRoundCount => ErrorKind::Validation,
            ErrorCode::DescriptionTooLong => ErrorKind::Validation,
            ErrorCode::InvalidStatus => ErrorKind::Validation,
            ErrorCode::CampaignInactive => ErrorKind::State,
            ErrorCode::CantStartNextRound => ErrorKind::State,
            ErrorCode::CantExceedMaxRound => ErrorKind::State,
            ErrorCode::CantExceedCampaignTarget => ErrorKind::Validation,
            ErrorCode::RoundClosedToDonations => ErrorKind::State,
            ErrorCode::VotingEnded => ErrorKind::State,
            ErrorCode::InvalidVoterType => ErrorKind::Validation,
            ErrorCode::InvalidModeratorType => ErrorKind::Validation,
            ErrorCode::VotingStillActive => ErrorKind::State,
            ErrorCode::RoundHasntEnded => ErrorKind::State,
            ErrorCode::RoundTargetNotMet => ErrorKind::State,
            ErrorCode::VotingAlreadyInitialized => ErrorKind::State,
            ErrorCode::CampaignInvalid => ErrorKind::State,
            ErrorCode::CampaignEnded => ErrorKind::State,
            ErrorCode::StakingAlreadyInitialized => ErrorKind::State,
            ErrorCode::StakingNotInitialized => ErrorKind::State,
            ErrorCode::NotStaked => ErrorKind::State,
            ErrorCode::AlreadyDonated => ErrorKind::Duplicate,
            ErrorCode::AlreadyVoted => ErrorKind::Duplicate,
            ErrorCode::AccountAlreadyInitialized => ErrorKind::Duplicate,
            ErrorCode::AccountMismatch => ErrorKind::Authorization,
            ErrorCode::ArithmeticOverflow => ErrorKind::Arithmetic,
            ErrorCode::DivisionByZero => ErrorKind::Arithmetic,
        }
    }

    /// A short human-readable description of the error.
    pub fn message(&self) -> (r: &'static str) {
        match self {
            ErrorCode::InvalidTarget => "Target set for campaign must be greater than 0",
            ErrorCode::InvalidRoundCount => "A campaign needs at least one funding round",
            ErrorCode::DescriptionTooLong => "Maxed out space for campaign description",
            ErrorCode::InvalidStatus => "Invalid campaign status",
            ErrorCode::CampaignInactive => "You tried to donate to an inactive campaign",
            ErrorCode::CantStartNextRound => "No go ahead to start the next round",
            ErrorCode::CantExceedMaxRound => "You can't exceed the max number of funding rounds",
            ErrorCode::CantExceedCampaignTarget => "Can't exceed campaign target",
            ErrorCode::RoundClosedToDonations => "This round is not accepting donations",
            ErrorCode::VotingEnded => "Voting period has ended",
            ErrorCode::InvalidVoterType => "Invalid voter type",
            ErrorCode::InvalidModeratorType => "Invalid moderator type",
            ErrorCode::VotingStillActive => "Can't tally votes while voting is still active",
            ErrorCode::RoundHasntEnded => "Can't start next round until we tally votes and end the current round",
            ErrorCode::RoundTargetNotMet => "The round has not reached its target",
            ErrorCode::VotingAlreadyInitialized => "Voting has already been initialized for this round",
            ErrorCode::CampaignInvalid => "The campaign was ruled invalid by its moderators",
            ErrorCode::CampaignEnded => "The campaign has ended",
            ErrorCode::StakingAlreadyInitialized => "Staking has already been initialized",
            ErrorCode::StakingNotInitialized => "Staking has not been initialized",
            ErrorCode::NotStaked => "There is no stake to return",
            ErrorCode::AlreadyDonated => "This donor has already donated to this round",
            ErrorCode::AlreadyVoted => "This participant has already voted",
            ErrorCode::AccountAlreadyInitialized => "The account already exists",
            ErrorCode::AccountMismatch => "The accounts given do not belong together",
            ErrorCode::ArithmeticOverflow => "Arithmetic overflow",
            ErrorCode::DivisionByZero => "Division by zero",
        }
    }
}

} // verus!
