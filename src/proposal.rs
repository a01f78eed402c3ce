use vstd::prelude::*;
use crate::types::{Address, EsdtTokenPayment};

verus! {

/// No single action, and no proposal as a whole, may need this much gas.
pub const MAX_GAS_LIMIT_PER_BLOCK: u64 = 600_000_000;

/// Fixed-point denominator of every percentage: `10_000` is 100.00%.
pub const FULL_PERCENTAGE: u64 = 10_000;

/// Largest number of actions that one proposal may carry.
pub const MAX_GOVERNANCE_PROPOSAL_ACTIONS: usize = 5;

/// Largest total voting power that a proposal's tally may hold, so that a share of it
/// in hundredths of a percent stays within 128 bits.
pub const MAX_TOTAL_VOTING_POWER: u128 = 34028236692093846346337460743176821;

pub type ProposalId = u64;

/// One call that a proposal asks the ledger to make once it has passed.
#[derive(Debug)]
pub struct GovernanceAction {
    pub gas_limit: u64,
    pub dest_address: Address,
    pub function_name: Vec<u8>,
    pub arguments: Vec<Vec<u8>>,
}

/// The four categories of vote.
#[derive(Clone, Copy, Debug, PartialEq, Eq, Structural)]
pub enum VoteType {
    UpVote,
    DownVote,
    DownVetoVote,
    AbstainVote,
}

/// Where a proposal stands in its lifecycle; `Absent` for a proposal that never existed
/// or was cancelled.
#[derive(Clone, Copy, Debug, PartialEq, Eq, Structural)]
pub enum GovernanceProposalStatus {
    Absent,
    Pending,
    Active,
    Defeated,
    DefeatedWithVeto,
    Succeeded,
}

/// The tally of one proposal: voting power per category, and the raw energy of all voters.
#[derive(Clone, Copy, Debug, PartialEq, Eq, Structural)]
pub struct ProposalVotes {
    pub up_votes: u128,
    pub down_votes: u128,
    pub down_veto_votes: u128,
    pub abstain_votes: u128,
    pub quorum: u128,
}

impl ProposalVotes {
    /// Voting power cast in all four categories together.
    pub open spec fn total_power(self) -> int {
        self.up_votes + self.down_votes + self.down_veto_votes + self.abstain_votes
    }

    pub open spec fn wf(self) -> bool {
        self.total_power() <= MAX_TOTAL_VOTING_POWER
    }

    pub open spec fn is_empty(self) -> bool {
        self.up_votes == 0 && self.down_votes == 0 && self.down_veto_votes == 0
            && self.abstain_votes == 0 && self.quorum == 0
    }

    /// The tally with no vote cast.
    pub fn empty() -> (r: ProposalVotes)
        ensures
            r.is_empty(),
            r.wf(),
    {
        ProposalVotes { up_votes: 0, down_votes: 0, down_veto_votes: 0, abstain_votes: 0, quorum: 0 }
    }

    /// The tally after a vote of `power` in `category` by a voter of raw energy `energy`.
    pub open spec fn spec_add_vote(self, category: VoteType, power: u128, energy: u128) -> ProposalVotes {
        let q = (self.quorum + energy) as u128;
        match category {
            VoteType::UpVote => ProposalVotes { up_votes: (self.up_votes + power) as u128, quorum: q, ..self },
            VoteType::DownVote => ProposalVotes { down_votes: (self.down_votes + power) as u128, quorum: q, ..self },
            VoteType::DownVetoVote => ProposalVotes { down_veto_votes: (self.down_veto_votes + power) as u128, quorum: q, ..self },
            VoteType::AbstainVote => ProposalVotes { abstain_votes: (self.abstain_votes + power) as u128, quorum: q, ..self },
        }
    }

    /// Whether the vote fits: the total power and the quorum stay within their bounds.
    pub open spec fn can_add_vote(self, power: u128, energy: u128) -> bool {
        self.total_power() + power <= MAX_TOTAL_VOTING_POWER && self.quorum + energy <= u128::MAX
    }

    /// Adds a vote, or returns `None` where the tally would leave its bounds.
    pub fn add_vote(&self, category: VoteType, power: u128, energy: u128) -> (r: Option<ProposalVotes>)
        requires
            self.wf(),
        ensures
            r is Some <==> self.can_add_vote(power, energy),
            r matches Some(v) ==> v == self.spec_add_vote(category, power, energy) && v.wf(),
    {
        let total = self.up_votes + self.down_votes + self.down_veto_votes + self.abstain_votes;
        if power > MAX_TOTAL_VOTING_POWER - total {
            return None;
        }
        if energy > u128::MAX - self.quorum {
            return None;
        }
        let quorum = self.quorum + energy;
        let v = match category {
            VoteType::UpVote => ProposalVotes { up_votes: self.up_votes + power, quorum, ..*self },
            VoteType::DownVote => ProposalVotes { down_votes: self.down_votes + power, quorum, ..*self },
            VoteType::DownVetoVote => ProposalVotes { down_veto_votes: self.down_veto_votes + power, quorum, ..*self },
            VoteType::AbstainVote => ProposalVotes { abstain_votes: self.abstain_votes + power, quorum, ..*self },
        };
        Some(v)
    }
}

/// A proposal, with the governance parameters in force when it was made.
#[derive(Debug)]
pub struct GovernanceProposal {
    pub proposal_id: ProposalId,
    pub proposer: Address,
    pub description: Vec<u8>,
    pub actions: Vec<GovernanceAction>,
    pub fee_payment: EsdtTokenPayment,
    pub minimum_quorum: u128,
    pub voting_delay_in_blocks: u64,
    pub voting_period_in_blocks: u64,
    pub withdraw_percentage_defeated: u64,
    pub veto_percentage: u64,
    pub total_energy: u128,
    pub proposal_start_block: u64,
}

/// Whether the veto share of the power cast exceeds `veto_percentage` (in hundredths of a percent).
pub open spec fn spec_vetoed(veto_percentage: u64, votes: ProposalVotes) -> bool {
    votes.down_veto_votes * FULL_PERCENTAGE > veto_percentage * votes.total_power()
}

/// The outcome of a proposal whose voting period is over.
pub open spec fn spec_outcome(minimum_quorum: u128, veto_percentage: u64, votes: ProposalVotes) -> GovernanceProposalStatus {
    if votes.quorum < minimum_quorum {
        GovernanceProposalStatus::Defeated
    } else if spec_vetoed(veto_percentage, votes) {
        GovernanceProposalStatus::DefeatedWithVeto
    } else if votes.up_votes > votes.down_votes {
        GovernanceProposalStatus::Succeeded
    } else {
        GovernanceProposalStatus::Defeated
    }
}

impl GovernanceProposal {
    pub open spec fn wf(&self) -> bool {
        &&& self.withdraw_percentage_defeated <= FULL_PERCENTAGE
        &&& self.veto_percentage <= FULL_PERCENTAGE
    }

    /// First block of the voting period.
    pub open spec fn voting_start(&self) -> int {
        self.proposal_start_block + self.voting_delay_in_blocks
    }

    /// First block after the voting period.
    pub open spec fn voting_end(&self) -> int {
        self.voting_start() + self.voting_period_in_blocks
    }

    /// Status of this proposal at `block`, given its tally.
    pub open spec fn spec_status(&self, votes: ProposalVotes, block: u64) -> GovernanceProposalStatus {
        if block < self.voting_start() {
            GovernanceProposalStatus::Pending
        } else if block < self.voting_end() {
            GovernanceProposalStatus::Active
        } else {
            spec_outcome(self.minimum_quorum, self.veto_percentage, votes)
        }
    }

    /// Status of this proposal at `current_block`, given its tally.
    pub fn status_at(&self, votes: &ProposalVotes, current_block: u64) -> (r: GovernanceProposalStatus)
        requires
            self.wf(),
            votes.wf(),
        ensures
            r == self.spec_status(*votes, current_block),
    {
        let voting_start = self.proposal_start_block as u128 + self.voting_delay_in_blocks as u128;
        let voting_end = voting_start + self.voting_period_in_blocks as u128;
        if (current_block as u128) < voting_start {
            return GovernanceProposalStatus::Pending;
        }
        if (current_block as u128) < voting_end {
            return GovernanceProposalStatus::Active;
        }
        if votes.quorum < self.minimum_quorum {
            return GovernanceProposalStatus::Defeated;
        }
        if is_vetoed(self.veto_percentage, votes) {
            return GovernanceProposalStatus::DefeatedWithVeto;
        }
        if votes.up_votes > votes.down_votes {
            GovernanceProposalStatus::Succeeded
        } else {
            GovernanceProposalStatus::Defeated
        }
    }
}

/// Whether the veto share of the power cast exceeds `veto_percentage`.
pub fn is_vetoed(veto_percentage: u64, votes: &ProposalVotes) -> (r: bool)
    requires
        veto_percentage <= FULL_PERCENTAGE,
        votes.wf(),
    ensures
        r == spec_vetoed(veto_percentage, *votes),
{
    let total = votes.up_votes + votes.down_votes + votes.down_veto_votes + votes.abstain_votes;
    proof {
        let t = total as int;
        let v = votes.down_veto_votes as int;
        let p = veto_percentage as int;
        assert(v * 10000 <= MAX_TOTAL_VOTING_POWER * 10000) by (nonlinear_arith)
            requires 0 <= v <= MAX_TOTAL_VOTING_POWER;
        assert(p * t <= 10000 * MAX_TOTAL_VOTING_POWER) by (nonlinear_arith)
            requires 0 <= p <= 10000, 0 <= t <= MAX_TOTAL_VOTING_POWER;
    }
    votes.down_veto_votes * (FULL_PERCENTAGE as u128) > (veto_percentage as u128) * total
}

/// The part of `fee` returned at `percentage` hundredths of a percent, rounded down.
pub open spec fn spec_refund(fee: u128, percentage: u64) -> int {
    (fee * percentage) / (FULL_PERCENTAGE as int)
}

/// Splits `fee` into the refund at `percentage` and the forfeited remainder, which add up to `fee`.
pub fn split_fee(fee: u128, percentage: u64) -> (r: (u128, u128))
    requires
        percentage <= FULL_PERCENTAGE,
    ensures
        r.0 == spec_refund(fee, percentage),
        r.0 + r.1 == fee,
{
    let q = fee / 10000;
    let m = fee % 10000;
    let p = percentage as u128;
    proof {
        let (f, qq, mm, pp) = (fee as int, q as int, m as int, p as int);
        assert(qq * pp <= qq * 10000) by (nonlinear_arith)
            requires 0 <= qq, 0 <= pp <= 10000;
        assert(mm * pp < 10000 * 10000) by (nonlinear_arith)
            requires 0 <= mm < 10000, 0 <= pp <= 10000;
        assert(f == qq * 10000 + mm);
        assert(qq * pp + (mm * pp) / 10000 == (f * pp) / 10000) by (nonlinear_arith)
            requires f == qq * 10000 + mm, 0 <= mm < 10000, 0 <= pp;
        assert((f * pp) / 10000 <= f) by (nonlinear_arith)
            requires 0 <= f, 0 <= pp <= 10000;
    }
    let refund = q * p + (m * p) / 10000;
    (refund, fee - refund)
}

} // verus!
