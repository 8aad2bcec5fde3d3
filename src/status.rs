use vstd::prelude::*;
use crate::error::ErrorCode;

verus! {

/// Whether a stored campaign or round status code is one of the three known
/// ones.
pub open spec fn is_status_code(code: u8) -> bool {
    1 <= code <= 3
}

/// The lifecycle of one funding round.
#[derive(Clone, Copy, Debug, PartialEq, Eq, Structural)]
pub enum RoundStatus {
    DonationsOpen,
    RoundTargetMet,
    RoundEnded,
}

/// Stored code of `RoundStatus::DonationsOpen`.
pub const ROUND_DONATIONS_OPEN: u8 = 1;
/// Stored code of `RoundStatus::RoundTargetMet`.
pub const ROUND_TARGET_MET: u8 = 2;
/// Stored code of `RoundStatus::RoundEnded`.
pub const ROUND_ENDED: u8 = 3;

impl RoundStatus {
    pub open spec fn code(self) -> u8 {
        match self {
            RoundStatus::DonationsOpen => ROUND_DONATIONS_OPEN,
            RoundStatus::RoundTargetMet => ROUND_TARGET_MET,
            RoundStatus::RoundEnded => ROUND_ENDED,
        }
    }

    /// Decodes a stored status; any code but the three known ones is refused.
    pub fn from(val: u8) -> (r: Result<RoundStatus, ErrorCode>)
        ensures
            1 <= val <= 3 ==> r is Ok && r->Ok_0.code() == val,
            !(1 <= val <= 3) ==> r == Err::<RoundStatus, ErrorCode>(ErrorCode::InvalidStatus),
    {
        match val {
            1 => Ok(RoundStatus::DonationsOpen),
            2 => Ok(RoundStatus::RoundTargetMet),
            3 => Ok(RoundStatus::RoundEnded),
            _ => Err(ErrorCode::InvalidStatus),
        }
    }

    pub fn to_u8(&self) -> (r: u8)
        ensures
            r == self.code(),
    {
        match self {
            RoundStatus::DonationsOpen => ROUND_DONATIONS_OPEN,
            RoundStatus::RoundTargetMet => ROUND_TARGET_MET,
            RoundStatus::RoundEnded => ROUND_ENDED,
        }
    }
}

/// The lifecycle of a campaign.
#[derive(Clone, Copy, Debug, PartialEq, Eq, Structural)]
pub enum CampaignStatus {
    CampaignActive,
    CampaignTargetMet,
    CampaignEnded,
}

/// Stored code of `CampaignStatus::CampaignActive`.
pub const CAMPAIGN_ACTIVE: u8 = 1;
/// Stored code of `CampaignStatus::CampaignTargetMet`.
pub const CAMPAIGN_TARGET_MET: u8 = 2;
/// Stored code of `CampaignStatus::CampaignEnded`.
pub const CAMPAIGN_ENDED: u8 = 3;

impl CampaignStatus {
    pub open spec fn code(self) -> u8 {
        match self {
            CampaignStatus::CampaignActive => CAMPAIGN_ACTIVE,
            CampaignStatus::CampaignTargetMet => CAMPAIGN_TARGET_MET,
            CampaignStatus::CampaignEnded => CAMPAIGN_ENDED,
        }
    }

    /// Decodes a stored status; any code but the three known ones is refused.
    pub fn from(val: u8) -> (r: Result<CampaignStatus, ErrorCode>)
        ensures
            1 <= val <= 3 ==> r is Ok && r->Ok_0.code() == val,
            !(1 <= val <= 3) ==> r == Err::<CampaignStatus, ErrorCode>(ErrorCode::InvalidStatus),
    {
        match val {
            1 => Ok(CampaignStatus::CampaignActive),
            2 => Ok(CampaignStatus::CampaignTargetMet),
            3 => Ok(CampaignStatus::CampaignEnded),
            _ => Err(ErrorCode::InvalidStatus),
        }
    }

    pub fn to_u8(&self) -> (r: u8)
        ensures
            r == self.code(),
    {
        match self {
            CampaignStatus::CampaignActive => CAMPAIGN_ACTIVE,
            CampaignStatus::CampaignTargetMet => CAMPAIGN_TARGET_MET,
            CampaignStatus::CampaignEnded => CAMPAIGN_ENDED,
        }
    }
}

/// Whether a voter's power comes from a donation or from a stake.
#[derive(Clone, Copy, Debug, PartialEq, Eq, Structural)]
pub enum VoterType {
    Donator,
    Staker,
}

/// Stored code of `VoterType::Donator`.
pub const VOTER_DONATOR: u8 = 1;
/// Stored code of `VoterType::Staker`.
pub const VOTER_STAKER: u8 = 2;

impl VoterType {
    pub open spec fn code(self) -> u8 {
        match self {
            VoterType::Donator => VOTER_DONATOR,
            VoterType::Staker => VOTER_STAKER,
        }
    }

    /// Decodes a stored voter kind; any code but the two known ones is refused.
    pub fn from(val: u8) -> (r: Result<VoterType, ErrorCode>)
        ensures
            1 <= val <= 2 ==> r is Ok && r->Ok_0.code() == val,
            !(1 <= val <= 2) ==> r == Err::<VoterType, ErrorCode>(ErrorCode::InvalidVoterType),
    {
        match val {
            1 => Ok(VoterType::Donator),
            2 => Ok(VoterType::Staker),
            _ => Err(ErrorCode::InvalidVoterType),
        }
    }

    pub fn to_u8(&self) -> (r: u8)
        ensures
            r == self.code(),
    {
        match self {
            VoterType::Donator => VOTER_DONATOR,
            VoterType::Staker => VOTER_STAKER,
        }
    }
}

/// Where a moderator's power comes from; only stakers moderate.
#[derive(Clone, Copy, Debug, PartialEq, Eq, Structural)]
pub enum ModeratorType {
    Staker,
}

/// Stored code of `ModeratorType::Staker`.
pub const MODERATOR_STAKER: u8 = 1;

impl ModeratorType {
    pub open spec fn code(self) -> u8 {
        match self {
            ModeratorType::Staker => MODERATOR_STAKER,
        }
    }

    /// Decodes a stored moderator kind; any code but the known one is refused.
    pub fn from(val: u8) -> (r: Result<ModeratorType, ErrorCode>)
        ensures
            val == 1 ==> r == Ok::<ModeratorType, ErrorCode>(ModeratorType::Staker),
            val != 1 ==> r == Err::<ModeratorType, ErrorCode>(ErrorCode::InvalidModeratorType),
    {
        match val {
            1 => Ok(ModeratorType::Staker),
            _ => Err(ErrorCode::InvalidModeratorType),
        }
    }

    pub fn to_u8(&self) -> (r: u8)
        ensures
            r == self.code(),
    {
        match self {
            ModeratorType::Staker => MODERATOR_STAKER,
        }
    }
}

} // verus!
