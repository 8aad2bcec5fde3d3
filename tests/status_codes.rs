use beneficence::{
    CampaignStatus, ErrorCode, ModeratorType, RoundStatus, VoterType, CAMPAIGN_ENDED,
    ROUND_DONATIONS_OPEN,
};

#[test]
fn round_status_round_trips() {
    for s in [RoundStatus::DonationsOpen, RoundStatus::RoundTargetMet, RoundStatus::RoundEnded] {
        assert_eq!(RoundStatus::from(s.to_u8()), Ok(s));
    }
    assert_eq!(RoundStatus::DonationsOpen.to_u8(), ROUND_DONATIONS_OPEN);
    assert_eq!(RoundStatus::from(0), Err(ErrorCode::InvalidStatus));
    assert_eq!(RoundStatus::from(4), Err(ErrorCode::InvalidStatus));
}

#[test]
fn campaign_status_round_trips() {
    for s in [
        CampaignStatus::CampaignActive,
        CampaignStatus::CampaignTargetMet,
        CampaignStatus::CampaignEnded,
    ] {
        assert_eq!(CampaignStatus::from(s.to_u8()), Ok(s));
    }
    assert_eq!(CampaignStatus::CampaignEnded.to_u8(), CAMPAIGN_ENDED);
    assert_eq!(CampaignStatus::from(255), Err(ErrorCode::InvalidStatus));
}

#[test]
fn voter_and_moderator_types_round_trip() {
    assert_eq!(VoterType::from(VoterType::Donator.to_u8()), Ok(VoterType::Donator));
    assert_eq!(VoterType::from(VoterType::Staker.to_u8()), Ok(VoterType::Staker));
    assert_eq!(VoterType::from(3), Err(ErrorCode::InvalidVoterType));
    assert_eq!(ModeratorType::from(ModeratorType::Staker.to_u8()), Ok(ModeratorType::Staker));
    assert_eq!(ModeratorType::from(2), Err(ErrorCode::InvalidModeratorType));
}

#[test]
fn error_messages_are_not_empty() {
    assert_eq!(ErrorCode::InvalidTarget.message(), "Target set for campaign must be greater than 0");
    assert!(!ErrorCode::DivisionByZero.message().is_empty());
}
