use beneficence::{
    init_donator_voting, init_staker_moderation, init_staker_voting, initialize,
    initialize_staking, initialize_voting, moderate, stake, tally_votes, unstake, vote,
    voting_power, Address, Campaign, Config, Donator, DonatorVotingInit, ErrorCode, ErrorKind,
    Initialize, InitializeStaking, InitializeVoting, Moderate, Moderator, NextRoundVoter, Round,
    RoundVote, Stake, StakeAccount, StakerModerationInit, StakerVotingInit, TallyVotes,
    TokenTransfer, Unstake, VoteNextRound, CAMPAIGN_ACTIVE, CAMPAIGN_ENDED, MODERATOR_STAKER,
    ROUND_DONATIONS_OPEN, ROUND_ENDED, ROUND_TARGET_MET, VOTER_DONATOR, VOTER_STAKER,
};

fn key(n: u64) -> Address {
    Address::new(n, 0, 0, 0)
}

const ROUND: u64 = 10;
const VOTES: u64 = 11;

fn config() -> Config {
    let mut ctx = Initialize {
        authority: key(1),
        native_token_mint: key(2),
        config_bump: 9,
        config: None,
    };
    initialize(&mut ctx).unwrap();
    ctx.config.unwrap()
}

fn campaign() -> Campaign {
    Campaign {
        fundstarter: key(20),
        vault: key(21),
        description: String::from("school"),
        target: 1000,
        cid: String::new(),
        balance: 300,
        token_mint: key(2),
        status: CAMPAIGN_ACTIVE,
        can_start_next_round: true,
        total_rounds: 3,
        active_round: 1,
        active_round_address: key(ROUND),
        is_valid_votes: 0,
        not_valid_votes: 0,
        moderator_votes: 0,
        is_valid_campaign: true,
        bump: 0,
    }
}

fn met_round(donators: u64) -> Round {
    Round {
        round_votes: key(VOTES),
        round: 1,
        target: 300,
        balance: 300,
        donators,
        status: ROUND_TARGET_MET,
    }
}

fn open_vote(start: i64) -> RoundVote {
    RoundVote {
        continue_campaign: 0,
        terminate_campaign: 0,
        donators_voted: 0,
        stakers_voted: 0,
        start_time: start,
        voting_ended: false,
    }
}

fn tally_ctx(cfg: Config, round: Round, votes: RoundVote) -> TallyVotes {
    TallyVotes {
        config: cfg,
        campaign: campaign(),
        round,
        round_address: key(ROUND),
        round_votes: votes,
        round_votes_address: key(VOTES),
    }
}

#[test]
fn initialize_sets_defaults() {
    let c = config();
    assert_eq!(c.admin, key(1));
    assert_eq!(c.native_token_mint, key(2));
    assert_eq!(c.round_voting_period_in_days, 1);
    assert_eq!(c.minimum_required_vote_percentage, 30);
    assert_eq!(c.donator_voting_rights, 60);
    assert_eq!(c.staker_voting_rights, 40);
    assert_eq!(c.staker_moderation_rights, 100);
    assert!(!c.staking_initialized);
    assert_eq!(c.active_stakers, 0);
    assert!(c.staking_pool.is_zero());
    assert_eq!(c.bump, 9);
    let mut again = Initialize { authority: key(1), native_token_mint: key(2), config_bump: 9, config: Some(c) };
    assert_eq!(initialize(&mut again), Err(ErrorCode::AccountAlreadyInitialized));
}

#[test]
fn initialize_voting_opens_vote() {
    let mut round = met_round(3);
    round.round_votes = Address::zero();
    let mut ctx = InitializeVoting {
        fundstarter: key(20),
        vault: key(21),
        campaign: campaign(),
        round,
        round_address: key(ROUND),
        round_votes_address: key(VOTES),
        round_votes: None,
    };
    assert_eq!(initialize_voting(&mut ctx, 5000), Ok(()));
    assert_eq!(ctx.round.round_votes, key(VOTES));
    assert_eq!(ctx.round_votes, Some(open_vote(5000)));
    assert_eq!(initialize_voting(&mut ctx, 6000), Err(ErrorCode::VotingAlreadyInitialized));
    assert_eq!(ErrorCode::VotingAlreadyInitialized.kind(), ErrorKind::State);
}

#[test]
fn initialize_voting_error_cases() {
    let mut round = met_round(3);
    round.round_votes = Address::zero();
    round.status = ROUND_DONATIONS_OPEN;
    let mut ctx = InitializeVoting {
        fundstarter: key(20),
        vault: key(21),
        campaign: campaign(),
        round,
        round_address: key(ROUND),
        round_votes_address: key(VOTES),
        round_votes: None,
    };
    assert_eq!(initialize_voting(&mut ctx, 1), Err(ErrorCode::RoundTargetNotMet));
    ctx.round.status = ROUND_TARGET_MET;
    ctx.campaign.active_round = 3;
    assert_eq!(initialize_voting(&mut ctx, 1), Err(ErrorCode::CantExceedMaxRound));
    assert!(ctx.round_votes.is_none());
}

fn voter_ctx(power: u8, voter_type: u8) -> VoteNextRound {
    VoteNextRound {
        campaign: campaign(),
        round: met_round(3),
        round_address: key(ROUND),
        round_votes: open_vote(0),
        round_votes_address: key(VOTES),
        voter_account: NextRoundVoter { voting_power: power, has_voted: false, voter_type, bump: 0 },
    }
}

#[test]
fn vote_counts_weight_and_voter() {
    let mut ctx = voter_ctx(12, VOTER_DONATOR);
    assert_eq!(vote(&mut ctx, true), Ok(()));
    assert_eq!(ctx.round_votes.continue_campaign, 12);
    assert_eq!(ctx.round_votes.terminate_campaign, 0);
    assert_eq!(ctx.round_votes.donators_voted, 1);
    assert_eq!(ctx.round_votes.stakers_voted, 0);
    assert!(ctx.voter_account.has_voted);

    let mut ctx2 = voter_ctx(7, VOTER_STAKER);
    ctx2.round_votes = ctx.round_votes;
    assert_eq!(vote(&mut ctx2, false), Ok(()));
    assert_eq!(ctx2.round_votes.continue_campaign, 12);
    assert_eq!(ctx2.round_votes.terminate_campaign, 7);
    assert_eq!(ctx2.round_votes.stakers_voted, 1);
    assert_eq!(ctx2.round_votes.donators_voted, 1);
}

#[test]
fn vote_error_cases() {
    let mut ctx = voter_ctx(12, VOTER_DONATOR);
    vote(&mut ctx, true).unwrap();
    assert_eq!(vote(&mut ctx, true), Err(ErrorCode::AlreadyVoted));
    assert_eq!(ctx.round_votes.continue_campaign, 12);

    let mut ctx = voter_ctx(12, 5);
    assert_eq!(vote(&mut ctx, true), Err(ErrorCode::InvalidVoterType));
    assert_eq!(ErrorCode::InvalidVoterType.kind(), ErrorKind::Validation);

    let mut ctx = voter_ctx(12, VOTER_DONATOR);
    ctx.round_votes.voting_ended = true;
    assert_eq!(vote(&mut ctx, true), Err(ErrorCode::VotingEnded));

    let mut ctx = voter_ctx(12, VOTER_DONATOR);
    ctx.round.status = ROUND_ENDED;
    assert_eq!(vote(&mut ctx, true), Err(ErrorCode::RoundTargetNotMet));

    let mut ctx = voter_ctx(200, VOTER_DONATOR);
    ctx.round_votes.terminate_campaign = 100;
    assert_eq!(vote(&mut ctx, false), Err(ErrorCode::ArithmeticOverflow));
    assert!(!ctx.voter_account.has_voted);
}

#[test]
fn quorate_terminate_majority_stops_campaign() {
    let mut cfg = config();
    cfg.active_stakers = 10;
    let mut votes = open_vote(0);
    votes.continue_campaign = 10;
    votes.terminate_campaign = 15;
    votes.donators_voted = 3;
    votes.stakers_voted = 2;
    let mut ctx = tally_ctx(cfg, met_round(5), votes);
    assert_eq!(tally_votes(&mut ctx, 86_401), Ok(()));
    assert!(!ctx.campaign.can_start_next_round);
    assert_eq!(ctx.round.status, ROUND_ENDED);
    assert!(ctx.round_votes.voting_ended);
}

#[test]
fn terminate_majority_without_quorum_permits_continuation() {
    let mut cfg = config();
    cfg.active_stakers = 10;
    let mut votes = open_vote(0);
    votes.continue_campaign = 10;
    votes.terminate_campaign = 15;
    votes.donators_voted = 2;
    votes.stakers_voted = 2;
    // minimum is floor(30 * 15 / 100) = 4, and 4 voters are not more than that
    let mut ctx = tally_ctx(cfg, met_round(5), votes);
    assert_eq!(tally_votes(&mut ctx, 86_401), Ok(()));
    assert!(ctx.campaign.can_start_next_round);
    assert_eq!(ctx.round.status, ROUND_ENDED);
}

#[test]
fn continue_majority_permits_continuation() {
    let mut cfg = config();
    cfg.active_stakers = 1;
    let mut votes = open_vote(0);
    votes.continue_campaign = 15;
    votes.terminate_campaign = 15;
    votes.donators_voted = 5;
    let mut ctx = tally_ctx(cfg, met_round(5), votes);
    assert_eq!(tally_votes(&mut ctx, 100_000), Ok(()));
    assert!(ctx.campaign.can_start_next_round);
}

#[test]
fn tally_waits_out_voting_period() {
    let cfg = config();
    let mut ctx = tally_ctx(cfg, met_round(2), open_vote(1_000));
    assert_eq!(tally_votes(&mut ctx, 1_000), Err(ErrorCode::VotingStillActive));
    assert_eq!(tally_votes(&mut ctx, 1_000 + 86_400), Err(ErrorCode::VotingStillActive));
    assert_eq!(tally_votes(&mut ctx, 0), Err(ErrorCode::VotingStillActive));
    assert_eq!(ErrorCode::VotingStillActive.kind(), ErrorKind::State);
    assert_eq!(ctx.round.status, ROUND_TARGET_MET);
    assert_eq!(tally_votes(&mut ctx, 1_000 + 86_401), Ok(()));
    assert_eq!(ctx.round.status, ROUND_ENDED);
    // a sealed vote cannot be tallied again
    assert_eq!(tally_votes(&mut ctx, 1_000_000), Err(ErrorCode::RoundTargetNotMet));
}

#[test]
fn tally_refuses_sealed_vote() {
    let cfg = config();
    let mut votes = open_vote(0);
    votes.voting_ended = true;
    let mut ctx = tally_ctx(cfg, met_round(2), votes);
    assert_eq!(tally_votes(&mut ctx, 1_000_000), Err(ErrorCode::VotingEnded));
    assert_eq!(ErrorCode::VotingEnded.kind(), ErrorKind::State);
}

#[test]
fn donor_voting_power_is_proportional() {
    assert_eq!(voting_power(40, 60, 200), Ok(12));
    let mut round = met_round(2);
    round.balance = 200;
    let mut ctx = DonatorVotingInit {
        config: config(),
        campaign: campaign(),
        round,
        round_address: key(ROUND),
        donator: key(50),
        donator_account: Donator { amount: 40, round: 1, bump: 0 },
        voter_account_bump: 3,
        voter_account: None,
    };
    assert_eq!(init_donator_voting(&mut ctx), Ok(()));
    assert_eq!(
        ctx.voter_account,
        Some(NextRoundVoter { voting_power: 12, has_voted: false, voter_type: VOTER_DONATOR, bump: 3 })
    );
    assert_eq!(init_donator_voting(&mut ctx), Err(ErrorCode::AccountAlreadyInitialized));
    assert_eq!(ErrorCode::AccountAlreadyInitialized.kind(), ErrorKind::Duplicate);
}

#[test]
fn voting_power_edges() {
    assert_eq!(voting_power(1, 60, 3), Ok(20));
    assert_eq!(voting_power(0, 60, 3), Ok(0));
    assert_eq!(voting_power(1000, 255, 1), Ok(255));
    assert_eq!(voting_power(5, 60, 0), Err(ErrorCode::DivisionByZero));
    assert_eq!(ErrorCode::DivisionByZero.kind(), ErrorKind::Arithmetic);
    assert_eq!(voting_power(u64::MAX, 2, 1), Err(ErrorCode::ArithmeticOverflow));
}

#[test]
fn donor_voting_needs_met_round_and_balance() {
    let mut round = met_round(2);
    round.balance = 0;
    let mut ctx = DonatorVotingInit {
        config: config(),
        campaign: campaign(),
        round,
        round_address: key(ROUND),
        donator: key(50),
        donator_account: Donator { amount: 0, round: 1, bump: 0 },
        voter_account_bump: 3,
        voter_account: None,
    };
    assert_eq!(init_donator_voting(&mut ctx), Err(ErrorCode::DivisionByZero));
    ctx.round.status = ROUND_DONATIONS_OPEN;
    assert_eq!(init_donator_voting(&mut ctx), Err(ErrorCode::RoundTargetNotMet));
    ctx.donator_account.round = 2;
    assert_eq!(init_donator_voting(&mut ctx), Err(ErrorCode::AccountMismatch));
    assert!(ctx.voter_account.is_none());
}

#[test]
fn staker_voting_power_from_stake_share() {
    let mut cfg = config();
    cfg.total_amount_staked = 1000;
    let mut ctx = StakerVotingInit {
        config: cfg,
        campaign: campaign(),
        round: met_round(2),
        round_address: key(ROUND),
        staker: key(70),
        stake_account: StakeAccount { stake_time: 0, deposit: 250, reward: 0 },
        voter_account_bump: 4,
        voter_account: None,
    };
    assert_eq!(init_staker_voting(&mut ctx), Ok(()));
    let v = ctx.voter_account.unwrap();
    assert_eq!(v.voting_power, 10);
    assert_eq!(v.voter_type, VOTER_STAKER);
    assert!(!v.has_voted);
}

fn stake_ctx(cfg: Config) -> Stake {
    Stake {
        config: cfg,
        staker: key(70),
        staker_token_account: key(71),
        staker_token_owner: key(70),
        staker_token_mint: key(2),
        staking_pool: key(80),
        mint: key(2),
        stake_account: None,
    }
}

fn staking_config() -> Config {
    let mut ctx = InitializeStaking {
        config: config(),
        admin: key(1),
        native_token_mint: key(2),
        staking_pool: key(80),
    };
    assert_eq!(initialize_staking(&mut ctx), Ok(()));
    assert!(ctx.config.staking_initialized);
    assert_eq!(ctx.config.staking_pool, key(80));
    assert_eq!(initialize_staking(&mut ctx), Err(ErrorCode::StakingAlreadyInitialized));
    ctx.config
}

#[test]
fn initialize_staking_checks_admin() {
    let mut ctx = InitializeStaking {
        config: config(),
        admin: key(99),
        native_token_mint: key(2),
        staking_pool: key(80),
    };
    assert_eq!(initialize_staking(&mut ctx), Err(ErrorCode::AccountMismatch));
    assert!(!ctx.config.staking_initialized);
}

#[test]
fn stake_records_deposit_and_raises_totals() {
    let mut ctx = stake_ctx(staking_config());
    let t = stake(&mut ctx, 500, 1234).unwrap();
    assert_eq!(t, TokenTransfer { from: key(71), to: key(80), authority: key(70), amount: 500 });
    assert_eq!(ctx.stake_account, Some(StakeAccount { stake_time: 1234, deposit: 500, reward: 0 }));
    assert_eq!(ctx.config.active_stakers, 1);
    assert_eq!(ctx.config.total_amount_staked, 500);
    assert_eq!(stake(&mut ctx, 5, 1), Err(ErrorCode::AccountAlreadyInitialized));
    assert_eq!(ctx.config.total_amount_staked, 500);
}

#[test]
fn stake_needs_open_pool() {
    let mut cfg = config();
    cfg.staking_pool = key(80);
    let mut ctx = stake_ctx(cfg);
    assert_eq!(stake(&mut ctx, 5, 1), Err(ErrorCode::StakingNotInitialized));
    let mut cfg = staking_config();
    cfg.total_amount_staked = u64::MAX;
    let mut ctx = stake_ctx(cfg);
    assert_eq!(stake(&mut ctx, 5, 1), Err(ErrorCode::ArithmeticOverflow));
    assert!(ctx.stake_account.is_none());
}

#[test]
fn unstake_returns_deposit_and_moves_totals_as_stake_does() {
    let mut cfg = staking_config();
    cfg.active_stakers = 1;
    cfg.total_amount_staked = 500;
    let mut ctx = Unstake {
        config: cfg,
        config_address: key(90),
        staker: key(70),
        staking_pool: key(80),
        staking_pool_mint: key(2),
        staker_token_account: key(71),
        staker_token_owner: key(70),
        staker_token_mint: key(2),
        stake_account: Some(StakeAccount { stake_time: 5, deposit: 500, reward: 0 }),
    };
    let t = unstake(&mut ctx).unwrap();
    assert_eq!(t, TokenTransfer { from: key(80), to: key(71), authority: key(90), amount: 500 });
    assert!(ctx.stake_account.is_none());
    assert_eq!(ctx.config.active_stakers, 2);
    assert_eq!(ctx.config.total_amount_staked, 1000);
    assert_eq!(unstake(&mut ctx), Err(ErrorCode::NotStaked));
    assert_eq!(ErrorCode::NotStaked.kind(), ErrorKind::State);
}

fn moderate_ctx(cfg: Config, c: Campaign, power: u8) -> Moderate {
    Moderate {
        config: cfg,
        campaign: c,
        moderator_account: Moderator { voting_power: power, has_voted: false, moderator_type: MODERATOR_STAKER },
    }
}

#[test]
fn moderator_power_from_stake_share() {
    let mut cfg = config();
    cfg.total_amount_staked = 400;
    let mut ctx = StakerModerationInit {
        config: cfg,
        campaign: campaign(),
        staker: key(70),
        stake_account: StakeAccount { stake_time: 0, deposit: 100, reward: 0 },
        moderator_account: None,
    };
    assert_eq!(init_staker_moderation(&mut ctx), Ok(()));
    assert_eq!(
        ctx.moderator_account,
        Some(Moderator { voting_power: 25, has_voted: false, moderator_type: MODERATOR_STAKER })
    );
    assert_eq!(init_staker_moderation(&mut ctx), Err(ErrorCode::AccountAlreadyInitialized));
    ctx.campaign.status = CAMPAIGN_ENDED;
    ctx.moderator_account = None;
    assert_eq!(init_staker_moderation(&mut ctx), Err(ErrorCode::CampaignEnded));
}

#[test]
fn moderation_can_invalidate_and_restore() {
    let mut cfg = config();
    cfg.active_stakers = 3;
    // minimum is floor(30 * 3 / 100) = 0
    let mut ctx = moderate_ctx(cfg, campaign(), 20);
    assert_eq!(moderate(&mut ctx, false), Ok(()));
    assert_eq!(ctx.campaign.not_valid_votes, 20);
    assert_eq!(ctx.campaign.moderator_votes, 1);
    assert!(!ctx.campaign.is_valid_campaign);
    assert!(ctx.moderator_account.has_voted);

    let mut ctx2 = moderate_ctx(cfg, ctx.campaign.clone(), 25);
    assert_eq!(moderate(&mut ctx2, true), Ok(()));
    assert_eq!(ctx2.campaign.is_valid_votes, 25);
    assert_eq!(ctx2.campaign.moderator_votes, 2);
    assert!(ctx2.campaign.is_valid_campaign);

    let mut ctx3 = moderate_ctx(cfg, ctx2.campaign.clone(), 10);
    assert_eq!(moderate(&mut ctx3, false), Ok(()));
    assert_eq!(ctx3.campaign.not_valid_votes, 30);
    assert!(!ctx3.campaign.is_valid_campaign);
}

#[test]
fn moderation_needs_quorum_to_invalidate() {
    let mut cfg = config();
    cfg.active_stakers = 10;
    // minimum is floor(30 * 10 / 100) = 3
    let mut ctx = moderate_ctx(cfg, campaign(), 50);
    assert_eq!(moderate(&mut ctx, false), Ok(()));
    assert!(ctx.campaign.is_valid_campaign);
}

#[test]
fn moderation_error_cases() {
    let cfg = config();
    let mut ctx = moderate_ctx(cfg, campaign(), 5);
    moderate(&mut ctx, true).unwrap();
    assert_eq!(moderate(&mut ctx, true), Err(ErrorCode::AlreadyVoted));
    assert_eq!(ErrorCode::AlreadyVoted.kind(), ErrorKind::Duplicate);
    assert_eq!(ctx.campaign.is_valid_votes, 5);

    let mut ended = campaign();
    ended.status = CAMPAIGN_ENDED;
    let mut ctx = moderate_ctx(cfg, ended, 5);
    assert_eq!(moderate(&mut ctx, true), Err(ErrorCode::CampaignEnded));

    let mut full = campaign();
    full.is_valid_votes = 250;
    let mut ctx = moderate_ctx(cfg, full, 6);
    assert_eq!(moderate(&mut ctx, true), Err(ErrorCode::ArithmeticOverflow));
    assert_eq!(ctx.campaign.moderator_votes, 0);
}
