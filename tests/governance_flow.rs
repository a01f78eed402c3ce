use governance::governance::{GovError, GovernanceConfig, GovernanceEvent, GovernanceV2};
use governance::power::sqrt_floor;
use governance::proposal::{
    split_fee, GovernanceAction, GovernanceProposalStatus, ProposalVotes, VoteType,
};
use governance::types::{Address, EsdtTokenPayment, TokenIdentifier};

const START: u64 = 10;
const DELAY: u64 = 5;
const PERIOD: u64 = 10;
const ACTIVE: u64 = START + DELAY;
const ENDED: u64 = START + DELAY + PERIOD;

fn addr(b: u8) -> Address {
    Address::new([b; 32])
}

fn fee_token() -> TokenIdentifier {
    TokenIdentifier::from_bytes(b"MEX-abcdef".to_vec())
}

fn config(min_fee: u128, quorum: u128, withdraw_pct: u64, veto_pct: u64) -> GovernanceConfig {
    GovernanceConfig {
        min_energy_for_propose: 10,
        min_fee_for_propose: min_fee,
        quorum,
        voting_delay_in_blocks: DELAY,
        voting_period_in_blocks: PERIOD,
        withdraw_percentage_defeated: withdraw_pct,
        veto_percentage: veto_pct,
        fee_token: fee_token(),
    }
}

fn engine(min_fee: u128, quorum: u128, withdraw_pct: u64, veto_pct: u64) -> GovernanceV2 {
    GovernanceV2::init(addr(0), config(min_fee, quorum, withdraw_pct, veto_pct), addr(200), addr(201))
        .unwrap()
}

fn action(gas: u64) -> GovernanceAction {
    GovernanceAction {
        gas_limit: gas,
        dest_address: addr(99),
        function_name: b"doSomething".to_vec(),
        arguments: vec![b"arg".to_vec()],
    }
}

fn fee(amount: u128) -> EsdtTokenPayment {
    EsdtTokenPayment::new(fee_token(), 0, amount)
}

fn propose(gov: &mut GovernanceV2, proposer: u8, amount: u128) -> Result<u64, GovError> {
    gov.propose(addr(proposer), b"raise the fee".to_vec(), vec![action(1_000)], fee(amount), 1_000, START)
}

fn votes(gov: &GovernanceV2, id: u64) -> ProposalVotes {
    gov.proposal_votes[(id - 1) as usize]
}

#[test]
fn ids_follow_call_order() {
    let mut gov = engine(100, 1000, 3000, 3333);
    assert_eq!(propose(&mut gov, 1, 100), Ok(1));
    assert_eq!(propose(&mut gov, 2, 100), Ok(2));
    assert_eq!(gov.vote(addr(3), 1, VoteType::UpVote, 400, 5_000, ACTIVE), Ok(20));
    assert_eq!(propose(&mut gov, 1, 100), Ok(3));
}

#[test]
fn second_vote_is_refused() {
    let mut gov = engine(100, 1000, 3000, 3333);
    let id = propose(&mut gov, 1, 100).unwrap();
    assert_eq!(gov.vote(addr(3), id, VoteType::UpVote, 400, 5_000, ACTIVE), Ok(20));
    let before = votes(&gov, id);
    let voted_before = gov.user_voted_proposals.len();
    assert_eq!(
        gov.vote(addr(3), id, VoteType::DownVote, 900, 5_000, ACTIVE + 1),
        Err(GovError::AlreadyVoted)
    );
    assert_eq!(votes(&gov, id), before);
    assert_eq!(gov.user_voted_proposals.len(), voted_before);
}

#[test]
fn square_roots() {
    assert_eq!(sqrt_floor(100), 10);
    assert_eq!(sqrt_floor(99), 9);
    assert_eq!(sqrt_floor(0), 0);
    assert_eq!(sqrt_floor(1), 1);
    assert_eq!(sqrt_floor(u128::MAX), u64::MAX as u128);
}

#[test]
fn zero_energy_vote_is_refused() {
    let mut gov = engine(100, 1000, 3000, 3333);
    let id = propose(&mut gov, 1, 100).unwrap();
    assert_eq!(gov.vote(addr(3), id, VoteType::UpVote, 0, 5_000, ACTIVE), Err(GovError::ZeroEnergy));
    assert_eq!(votes(&gov, id).quorum, 0);
    assert!(gov.user_voted_proposals.is_empty());
}

#[test]
fn quorum_sums_raw_energy_of_all_categories() {
    let mut gov = engine(100, 1000, 3000, 3333);
    let id = propose(&mut gov, 1, 100).unwrap();
    gov.vote(addr(3), id, VoteType::UpVote, 400, 5_000, ACTIVE).unwrap();
    gov.vote(addr(4), id, VoteType::DownVote, 900, 5_000, ACTIVE).unwrap();
    gov.vote(addr(5), id, VoteType::DownVetoVote, 16, 5_000, ACTIVE).unwrap();
    gov.vote(addr(6), id, VoteType::AbstainVote, 25, 5_000, ACTIVE).unwrap();
    let v = votes(&gov, id);
    assert_eq!(v.quorum, 400 + 900 + 16 + 25);
    assert_eq!((v.up_votes, v.down_votes, v.down_veto_votes, v.abstain_votes), (20, 30, 4, 5));
}

#[test]
fn total_energy_is_kept_from_first_vote() {
    let mut gov = engine(100, 1000, 3000, 3333);
    let id = propose(&mut gov, 1, 100).unwrap();
    assert_eq!(gov.proposals[0].as_ref().unwrap().total_energy, 0);
    gov.vote(addr(3), id, VoteType::UpVote, 400, 5_000, ACTIVE).unwrap();
    assert_eq!(gov.proposals[0].as_ref().unwrap().total_energy, 5_000);
    gov.vote(addr(4), id, VoteType::UpVote, 400, 9_999, ACTIVE).unwrap();
    assert_eq!(gov.proposals[0].as_ref().unwrap().total_energy, 5_000);
}

#[test]
fn cancel_only_while_pending() {
    let mut gov = engine(100, 1000, 3000, 3333);
    let id = propose(&mut gov, 1, 100).unwrap();
    assert_eq!(gov.cancel(addr(2), id, START).err(), Some(GovError::NotProposer));
    assert_eq!(gov.cancel(addr(1), id, ACTIVE).err(), Some(GovError::NotCancellable));
    assert_eq!(gov.cancel(addr(1), id, ENDED).err(), Some(GovError::NotCancellable));
    let t = gov.cancel(addr(1), id, START + 1).unwrap();
    assert_eq!(t.payment.amount, 100);
    assert_eq!(gov.status(id, START + 1), GovernanceProposalStatus::Absent);
    assert_eq!(gov.cancel(addr(1), id, START + 1).err(), Some(GovError::NotFound));
}

#[test]
fn veto_refund_splits_fee() {
    assert_eq!(split_fee(100, 3000), (30, 70));
    assert_eq!(split_fee(99, 3000), (29, 70));
    assert_eq!(split_fee(u128::MAX, 10_000), (u128::MAX, 0));
    assert_eq!(split_fee(u128::MAX, 0), (0, u128::MAX));
    let (r, k) = split_fee(123_456_789, 3333);
    assert_eq!(r, 123_456_789 * 3333 / 10_000);
    assert_eq!(r + k, 123_456_789);
}

#[test]
fn withdraw_after_veto_keeps_remainder() {
    let mut gov = engine(100, 1000, 3000, 3333);
    let id = propose(&mut gov, 1, 100).unwrap();
    gov.vote(addr(3), id, VoteType::DownVetoVote, 10_000, 5_000, ACTIVE).unwrap();
    gov.vote(addr(4), id, VoteType::UpVote, 100, 5_000, ACTIVE).unwrap();
    assert_eq!(gov.status(id, ENDED), GovernanceProposalStatus::DefeatedWithVeto);
    assert_eq!(gov.withdraw_deposit(addr(2), id, ENDED).err(), Some(GovError::NotProposer));
    let t = gov.withdraw_deposit(addr(1), id, ENDED).unwrap();
    assert_eq!(t.payment.amount, 30);
    assert_eq!(t.to.bytes, [1u8; 32]);
    assert_eq!(gov.proposal_remaining_fees.len(), 1);
    assert_eq!(gov.proposal_remaining_fees[0].amount, 70);
    assert_eq!(gov.proposal_remaining_fees[0].token_identifier.bytes, b"MEX-abcdef".to_vec());
}

#[test]
fn status_follows_block_height() {
    let mut gov = engine(100, 1000, 3000, 3333);
    let id = propose(&mut gov, 1, 100).unwrap();
    assert_eq!(gov.status(id, START), GovernanceProposalStatus::Pending);
    assert_eq!(gov.status(id, ACTIVE - 1), GovernanceProposalStatus::Pending);
    assert_eq!(gov.status(id, ACTIVE), GovernanceProposalStatus::Active);
    assert_eq!(gov.status(id, ENDED - 1), GovernanceProposalStatus::Active);
    assert_eq!(gov.status(id, ENDED), GovernanceProposalStatus::Defeated);
    assert_eq!(gov.status(id, ENDED + 1_000), GovernanceProposalStatus::Defeated);
    assert_eq!(gov.status(7, ENDED), GovernanceProposalStatus::Absent);
    assert_eq!(gov.status(0, ENDED), GovernanceProposalStatus::Absent);
}

#[test]
fn end_to_end_succeeded_and_refunded() {
    let mut gov = engine(100, 1000, 3000, 3333);
    let id = propose(&mut gov, 1, 100).unwrap();
    assert_eq!(gov.vote(addr(3), id, VoteType::UpVote, 400, 5_000, ACTIVE), Ok(20));
    assert_eq!(gov.vote(addr(4), id, VoteType::UpVote, 900, 5_000, ACTIVE + 1), Ok(30));
    assert_eq!(gov.vote(addr(5), id, VoteType::DownVote, 100, 5_000, ACTIVE + 2), Ok(10));
    let v = votes(&gov, id);
    assert_eq!(v.quorum, 1400);
    assert_eq!((v.up_votes, v.down_votes), (50, 10));
    assert_eq!(gov.status(id, ENDED), GovernanceProposalStatus::Succeeded);
    let t = gov.withdraw_deposit(addr(1), id, ENDED).unwrap();
    assert_eq!(t.payment.amount, 100);
    assert_eq!(t.to.bytes, [1u8; 32]);
    assert!(gov.proposal_remaining_fees.is_empty());
    assert_eq!(
        gov.events,
        vec![
            GovernanceEvent::ProposalCreated { proposal_id: 1, proposer: addr(1), block: START },
            GovernanceEvent::VoteCast { vote: VoteType::UpVote, voter: addr(3), proposal_id: 1, power: 20 },
            GovernanceEvent::VoteCast { vote: VoteType::UpVote, voter: addr(4), proposal_id: 1, power: 30 },
            GovernanceEvent::VoteCast { vote: VoteType::DownVote, voter: addr(5), proposal_id: 1, power: 10 },
            GovernanceEvent::ProposalWithdrawnAfterResolution { proposal_id: 1 },
        ]
    );
}

#[test]
fn end_to_end_cancel_before_delay() {
    let mut gov = engine(50, 1000, 3000, 3333);
    let id = propose(&mut gov, 1, 50).unwrap();
    let t = gov.cancel(addr(1), id, START + 2).unwrap();
    assert_eq!(t.payment.amount, 50);
    assert_eq!(t.to.bytes, [1u8; 32]);
    assert_eq!(gov.status(id, START + 2), GovernanceProposalStatus::Absent);
    assert_eq!(gov.events.last(), Some(&GovernanceEvent::ProposalCanceled { proposal_id: id }));
}

#[test]
fn week_total_is_needed_only_before_first_vote() {
    let mut gov = engine(100, 1000, 3000, 3333);
    assert!(!gov.needs_week_total(1));
    let id = propose(&mut gov, 1, 100).unwrap();
    assert!(gov.needs_week_total(id));
    gov.vote(addr(3), id, VoteType::AbstainVote, 1, 5_000, ACTIVE).unwrap();
    assert!(!gov.needs_week_total(id));
    assert!(!gov.needs_week_total(0));
}

#[test]
fn defeated_without_quorum_refunds_in_full() {
    let mut gov = engine(100, 1000, 3000, 3333);
    let id = propose(&mut gov, 1, 100).unwrap();
    gov.vote(addr(3), id, VoteType::UpVote, 400, 5_000, ACTIVE).unwrap();
    assert_eq!(gov.status(id, ENDED), GovernanceProposalStatus::Defeated);
    assert_eq!(gov.withdraw_deposit(addr(1), id, ENDED).unwrap().payment.amount, 100);
}

#[test]
fn tie_is_defeated() {
    let mut gov = engine(100, 10, 3000, 3333);
    let id = propose(&mut gov, 1, 100).unwrap();
    gov.vote(addr(3), id, VoteType::UpVote, 400, 5_000, ACTIVE).unwrap();
    gov.vote(addr(4), id, VoteType::DownVote, 400, 5_000, ACTIVE).unwrap();
    assert_eq!(gov.status(id, ENDED), GovernanceProposalStatus::Defeated);
}

#[test]
fn propose_errors() {
    let mut gov = engine(100, 1000, 3000, 3333);
    let desc = b"d".to_vec();
    assert_eq!(
        gov.propose(addr(0), desc.clone(), vec![action(1)], fee(100), 1_000, START),
        Err(GovError::SelfCall)
    );
    assert_eq!(gov.propose(addr(1), desc.clone(), vec![], fee(100), 1_000, START), Err(GovError::EmptyActions));
    let six = (0..6).map(|_| action(1)).collect::<Vec<_>>();
    assert_eq!(gov.propose(addr(1), desc.clone(), six, fee(100), 1_000, START), Err(GovError::TooManyActions));
    let five = (0..5).map(|_| action(1)).collect::<Vec<_>>();
    assert_eq!(gov.propose(addr(1), desc.clone(), five, fee(100), 1_000, START), Ok(1));
    assert_eq!(
        gov.propose(addr(1), desc.clone(), vec![action(1)], fee(100), 0, START),
        Err(GovError::InsufficientEnergy)
    );
    assert_eq!(
        gov.propose(addr(1), desc.clone(), vec![action(1)], fee(100), 9, START),
        Err(GovError::InsufficientEnergy)
    );
    let wrong = EsdtTokenPayment::new(TokenIdentifier::from_bytes(b"UTK-123456".to_vec()), 0, 100);
    assert_eq!(
        gov.propose(addr(1), desc.clone(), vec![action(1)], wrong, 1_000, START),
        Err(GovError::WrongFeeToken)
    );
    assert_eq!(
        gov.propose(addr(1), desc.clone(), vec![action(1)], fee(99), 1_000, START),
        Err(GovError::InsufficientFee)
    );
    assert_eq!(
        gov.propose(addr(1), desc.clone(), vec![action(1)], fee(101), 1_000, START),
        Err(GovError::InsufficientFee)
    );
    assert_eq!(
        gov.propose(addr(1), desc.clone(), vec![action(600_000_000)], fee(100), 1_000, START),
        Err(GovError::GasLimitExceeded)
    );
    assert_eq!(
        gov.propose(addr(1), desc.clone(), vec![action(300_000_000), action(300_000_000)], fee(100), 1_000, START),
        Err(GovError::GasLimitExceeded)
    );
    assert_eq!(
        gov.propose(addr(1), desc, vec![action(300_000_000), action(299_999_999)], fee(100), 1_000, START),
        Ok(2)
    );
    assert_eq!(gov.proposals.len(), 2);
}

#[test]
fn proposal_keeps_configuration_of_its_time() {
    let mut gov = engine(100, 1000, 3000, 3333);
    let id = propose(&mut gov, 1, 100).unwrap();
    let mut newer = config(100, 1000, 3000, 3333);
    newer.voting_delay_in_blocks = 1_000;
    newer.quorum = 5;
    assert_eq!(gov.change_config(newer), Ok(()));
    assert_eq!(gov.status(id, ACTIVE), GovernanceProposalStatus::Active);
    let p = gov.proposals[0].as_ref().unwrap();
    assert_eq!((p.minimum_quorum, p.voting_delay_in_blocks), (1000, DELAY));
    let id2 = propose(&mut gov, 1, 100).unwrap();
    assert_eq!(gov.status(id2, ACTIVE), GovernanceProposalStatus::Pending);
}

#[test]
fn vote_errors() {
    let mut gov = engine(100, 1000, 3000, 3333);
    let id = propose(&mut gov, 1, 100).unwrap();
    assert_eq!(gov.vote(addr(0), id, VoteType::UpVote, 4, 5, ACTIVE), Err(GovError::SelfCall));
    assert_eq!(gov.vote(addr(3), 9, VoteType::UpVote, 4, 5, ACTIVE), Err(GovError::NotFound));
    assert_eq!(gov.vote(addr(3), 0, VoteType::UpVote, 4, 5, ACTIVE), Err(GovError::NotFound));
    assert_eq!(gov.vote(addr(3), id, VoteType::UpVote, 4, 5, START), Err(GovError::ProposalNotActive));
    assert_eq!(gov.vote(addr(3), id, VoteType::UpVote, 4, 5, ENDED), Err(GovError::ProposalNotActive));
    assert_eq!(gov.vote(addr(3), id, VoteType::UpVote, u128::MAX, 5, ACTIVE), Ok(u64::MAX as u128));
    assert_eq!(gov.vote(addr(4), id, VoteType::UpVote, 1, 5, ACTIVE), Err(GovError::VoteOverflow));
    assert_eq!(votes(&gov, id).quorum, u128::MAX);
}

#[test]
fn withdraw_errors() {
    let mut gov = engine(100, 1000, 3000, 3333);
    let id = propose(&mut gov, 1, 100).unwrap();
    assert_eq!(gov.withdraw_deposit(addr(0), id, ENDED).err(), Some(GovError::SelfCall));
    assert_eq!(gov.withdraw_deposit(addr(1), 5, ENDED).err(), Some(GovError::NotFound));
    assert_eq!(gov.withdraw_deposit(addr(1), id, START).err(), Some(GovError::NotWithdrawable));
    assert_eq!(gov.withdraw_deposit(addr(1), id, ACTIVE).err(), Some(GovError::NotWithdrawable));
    assert_eq!(gov.cancel(addr(0), id, START).err(), Some(GovError::SelfCall));
}

#[test]
fn invalid_percentages_are_refused() {
    let r = GovernanceV2::init(addr(0), config(100, 1000, 10_001, 3333), addr(1), addr(2));
    assert_eq!(r.err(), Some(GovError::InvalidPercentage));
    let r = GovernanceV2::init(addr(0), config(100, 1000, 3000, 10_001), addr(1), addr(2));
    assert_eq!(r.err(), Some(GovError::InvalidPercentage));
    let mut gov = engine(100, 1000, 3000, 3333);
    assert_eq!(gov.change_config(config(100, 1000, 20_000, 0)), Err(GovError::InvalidPercentage));
    assert_eq!(gov.config.withdraw_percentage_defeated, 3000);
}

#[test]
fn cancelled_proposal_is_gone_and_its_id_not_reused() {
    let mut gov = engine(100, 1000, 3000, 3333);
    let id = propose(&mut gov, 1, 100).unwrap();
    gov.cancel(addr(1), id, START).unwrap();
    assert_eq!(gov.vote(addr(3), id, VoteType::UpVote, 400, 5_000, ACTIVE), Err(GovError::NotFound));
    assert_eq!(gov.withdraw_deposit(addr(1), id, ENDED).err(), Some(GovError::NotFound));
    assert_eq!(propose(&mut gov, 1, 100), Ok(2));
}
