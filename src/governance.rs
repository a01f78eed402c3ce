use vstd::prelude::*;
use crate::power::{sqrt_floor, spec_sqrt_floor};
use crate::proposal::{
    FULL_PERCENTAGE, GovernanceAction, GovernanceProposal, GovernanceProposalStatus,
    MAX_GAS_LIMIT_PER_BLOCK, MAX_GOVERNANCE_PROPOSAL_ACTIONS, ProposalId, ProposalVotes, VoteType,
    split_fee, spec_refund,
};
use crate::types::{Address, EsdtTokenPayment, TokenIdentifier, Transfer};

verus! {

/// Largest number of proposals that the registry holds, so that every id fits in a `u64`.
pub const MAX_PROPOSALS: usize = 4294967295;

/// Why an operation of the governance engine was refused.
#[derive(Clone, Copy, Debug, PartialEq, Eq, Structural)]
pub enum GovError {
    SelfCall,
    EmptyActions,
    TooManyActions,
    GasLimitExceeded,
    InsufficientEnergy,
    WrongFeeToken,
    InsufficientFee,
    TooManyProposals,
    NotFound,
    ProposalNotActive,
    AlreadyVoted,
    ZeroEnergy,
    VoteOverflow,
    NotProposer,
    NotCancellable,
    NotWithdrawable,
    InvalidPercentage,
}

/// A record that the engine appends to its log on each successful operation.
#[derive(Clone, Copy, Debug, PartialEq, Eq)]
pub enum GovernanceEvent {
    ProposalCreated { proposal_id: ProposalId, proposer: Address, block: u64 },
    VoteCast { vote: VoteType, voter: Address, proposal_id: ProposalId, power: u128 },
    ProposalCanceled { proposal_id: ProposalId },
    ProposalWithdrawnAfterResolution { proposal_id: ProposalId },
}

/// The governance parameters; each new proposal takes a copy of them.
#[derive(Debug)]
pub struct GovernanceConfig {
    pub min_energy_for_propose: u128,
    pub min_fee_for_propose: u128,
    pub quorum: u128,
    pub voting_delay_in_blocks: u64,
    pub voting_period_in_blocks: u64,
    pub withdraw_percentage_defeated: u64,
    pub veto_percentage: u64,
    pub fee_token: TokenIdentifier,
}

impl GovernanceConfig {
    pub open spec fn wf(&self) -> bool {
        &&& self.withdraw_percentage_defeated <= FULL_PERCENTAGE
        &&& self.veto_percentage <= FULL_PERCENTAGE
    }
}

/// Total gas of a list of actions.
pub open spec fn spec_total_gas(actions: Seq<GovernanceAction>) -> int
    decreases actions.len(),
{
    if actions.len() == 0 {
        0
    } else {
        spec_total_gas(actions.drop_last()) + actions.last().gas_limit
    }
}

/// Whether some action alone needs the gas limit of a block or more.
pub open spec fn spec_some_action_over_limit(actions: Seq<GovernanceAction>) -> bool {
    exists|i: int| 0 <= i < actions.len() && #[trigger] actions[i].gas_limit >= MAX_GAS_LIMIT_PER_BLOCK
}

/// The proposal that `propose` stores, given its inputs and the configuration in force.
pub open spec fn spec_new_proposal(
    p: GovernanceProposal,
    id: ProposalId,
    proposer: Address,
    description: Vec<u8>,
    actions: Vec<GovernanceAction>,
    fee_payment: EsdtTokenPayment,
    config: GovernanceConfig,
    current_block: u64,
) -> bool {
    &&& p.proposal_id == id
    &&& p.proposer@ == proposer@
    &&& p.description == description
    &&& p.actions == actions
    &&& p.fee_payment == fee_payment
    &&& p.minimum_quorum == config.quorum
    &&& p.voting_delay_in_blocks == config.voting_delay_in_blocks
    &&& p.voting_period_in_blocks == config.voting_period_in_blocks
    &&& p.withdraw_percentage_defeated == config.withdraw_percentage_defeated
    &&& p.veto_percentage == config.veto_percentage
    &&& p.total_energy == 0
    &&& p.proposal_start_block == current_block
}

/// The governance engine: the proposal registry, the tallies, who voted on what,
/// and the forfeited fees.
#[derive(Debug)]
pub struct GovernanceV2 {
    /// The address of the engine itself, which may not act on it.
    pub self_address: Address,
    pub config: GovernanceConfig,
    pub energy_factory_address: Address,
    pub fees_collector_address: Address,
    /// The proposal with id `i + 1` at index `i`; `None` once cancelled.
    pub proposals: Vec<Option<GovernanceProposal>>,
    /// The tally of the proposal with id `i + 1` at index `i`.
    pub proposal_votes: Vec<ProposalVotes>,
    /// Each (voter, proposal id) pair that has voted.
    pub user_voted_proposals: Vec<(Address, ProposalId)>,
    /// Fee parts kept back from proposals defeated with veto.
    pub proposal_remaining_fees: Vec<EsdtTokenPayment>,
    /// The log of events, oldest first.
    pub events: Vec<GovernanceEvent>,
}

impl GovernanceV2 {
    pub open spec fn wf(&self) -> bool {
        &&& self.config.wf()
        &&& self.proposals@.len() == self.proposal_votes@.len()
        &&& self.proposals@.len() <= MAX_PROPOSALS
        &&& forall|i: int|
            0 <= i < self.proposals@.len() && (#[trigger] self.proposals@[i]) is Some ==> {
                &&& self.proposals@[i].unwrap().proposal_id == i + 1
                &&& self.proposals@[i].unwrap().wf()
            }
        &&& forall|i: int| 0 <= i < self.proposal_votes@.len() ==> (#[trigger] self.proposal_votes@[i]).wf()
    }

    /// The id that the next proposal will get.
    pub open spec fn next_proposal_id(&self) -> int {
        self.proposals@.len() + 1int
    }

    /// Whether `id` names a slot of the registry, cleared or not.
    pub open spec fn id_in_range(&self, id: ProposalId) -> bool {
        1 <= id <= self.proposals@.len()
    }

    /// The stored proposal with id `id`, if any.
    pub open spec fn proposal(&self, id: ProposalId) -> Option<GovernanceProposal> {
        if self.id_in_range(id) {
            self.proposals@[id - 1]
        } else {
            None
        }
    }

    /// The tally of proposal `id`.
    pub open spec fn votes(&self, id: ProposalId) -> ProposalVotes {
        self.proposal_votes@[id - 1]
    }

    /// Whether `voter` has voted on proposal `id`.
    pub open spec fn has_voted(&self, voter: Seq<u8>, id: ProposalId) -> bool {
        exists|i: int|
            0 <= i < self.user_voted_proposals@.len() && (#[trigger] self.user_voted_proposals@[i]).0@
                == voter && self.user_voted_proposals@[i].1 == id
    }

    /// Status of proposal `id` at `block`.
    pub open spec fn spec_status(&self, id: ProposalId, block: u64) -> GovernanceProposalStatus {
        match self.proposal(id) {
            None => GovernanceProposalStatus::Absent,
            Some(p) => p.spec_status(self.votes(id), block),
        }
    }

    /// The error, if any, with which `propose` refuses its inputs.
    pub open spec fn propose_error(
        &self,
        caller: Address,
        actions: Seq<GovernanceAction>,
        fee_payment: EsdtTokenPayment,
        caller_energy: u128,
    ) -> Option<GovError> {
        if caller@ == self.self_address@ {
            Some(GovError::SelfCall)
        } else if actions.len() == 0 {
            Some(GovError::EmptyActions)
        } else if actions.len() > MAX_GOVERNANCE_PROPOSAL_ACTIONS {
            Some(GovError::TooManyActions)
        } else if caller_energy == 0 || caller_energy < self.config.min_energy_for_propose {
            Some(GovError::InsufficientEnergy)
        } else if fee_payment.token_identifier@ != self.config.fee_token@ {
            Some(GovError::WrongFeeToken)
        } else if fee_payment.amount != self.config.min_fee_for_propose {
            Some(GovError::InsufficientFee)
        } else if spec_some_action_over_limit(actions) {
            Some(GovError::GasLimitExceeded)
        } else if spec_total_gas(actions) >= MAX_GAS_LIMIT_PER_BLOCK {
            Some(GovError::GasLimitExceeded)
        } else if self.proposals@.len() >= MAX_PROPOSALS {
            Some(GovError::TooManyProposals)
        } else {
            None
        }
    }

    /// The error, if any, with which `vote` refuses its inputs.
    pub open spec fn vote_error(
        &self,
        caller: Address,
        id: ProposalId,
        voter_energy: u128,
        current_block: u64,
    ) -> Option<GovError> {
        if caller@ == self.self_address@ {
            Some(GovError::SelfCall)
        } else if self.proposal(id) is None {
            Some(GovError::NotFound)
        } else if self.spec_status(id, current_block) != GovernanceProposalStatus::Active {
            Some(GovError::ProposalNotActive)
        } else if self.has_voted(caller@, id) {
            Some(GovError::AlreadyVoted)
        } else if voter_energy == 0 {
            Some(GovError::ZeroEnergy)
        } else if !self.votes(id).can_add_vote(spec_sqrt_floor(voter_energy as int) as u128, voter_energy) {
            Some(GovError::VoteOverflow)
        } else {
            None
        }
    }

    /// The error, if any, with which `cancel` refuses its inputs.
    pub open spec fn cancel_error(&self, caller: Address, id: ProposalId, current_block: u64) -> Option<GovError> {
        if caller@ == self.self_address@ {
            Some(GovError::SelfCall)
        } else {
            match self.spec_status(id, current_block) {
                GovernanceProposalStatus::Absent => Some(GovError::NotFound),
                GovernanceProposalStatus::Pending => {
                    if caller@ != self.proposal(id).unwrap().proposer@ {
                        Some(GovError::NotProposer)
                    } else {
                        None
                    }
                },
                _ => Some(GovError::NotCancellable),
            }
        }
    }

    /// The error, if any, with which `withdraw_deposit` refuses its inputs.
    pub open spec fn withdraw_error(&self, caller: Address, id: ProposalId, current_block: u64) -> Option<GovError> {
        if caller@ == self.self_address@ {
            Some(GovError::SelfCall)
        } else {
            match self.spec_status(id, current_block) {
                GovernanceProposalStatus::Absent => Some(GovError::NotFound),
                GovernanceProposalStatus::Pending | GovernanceProposalStatus::Active => Some(
                    GovError::NotWithdrawable,
                ),
                _ => {
                    if caller@ != self.proposal(id).unwrap().proposer@ {
                        Some(GovError::NotProposer)
                    } else {
                        None
                    }
                },
            }
        }
    }

    /// What a successful `vote` of `caller` on proposal `id` does, going from `self` to `next`:
    /// it returns `power`, the floor square root of the voter's energy, adds it to the
    /// category's count and the raw energy to the quorum, records the voter, and keeps
    /// `week_total_energy` as the proposal's total energy if it is the first vote.
    pub open spec fn vote_applied(
        &self,
        next: GovernanceV2,
        caller: Address,
        id: ProposalId,
        vote: VoteType,
        voter_energy: u128,
        week_total_energy: u128,
        power: u128,
    ) -> bool {
        &&& power == spec_sqrt_floor(voter_energy as int)
        &&& next.proposal_votes@ == self.proposal_votes@.update(
            id - 1,
            self.votes(id).spec_add_vote(vote, power, voter_energy),
        )
        &&& next.user_voted_proposals@ == self.user_voted_proposals@.push((caller, id))
        &&& self.votes(id).quorum == 0 ==> next.proposals@ == self.proposals@.update(
            id - 1,
            Some((GovernanceProposal { total_energy: week_total_energy, ..self.proposal(id).unwrap() })),
        )
        &&& self.votes(id).quorum != 0 ==> next.proposals == self.proposals
        &&& next.proposal_remaining_fees == self.proposal_remaining_fees
        &&& next.events@ == self.events@.push(
            GovernanceEvent::VoteCast { vote, voter: caller, proposal_id: id, power },
        )
    }

    /// What a successful `cancel` of proposal `id` does, going from `self` to `next`: the
    /// transfer `t` pays the whole fee back to the proposer, and the proposal is cleared.
    pub open spec fn cancel_applied(&self, next: GovernanceV2, id: ProposalId, t: Transfer) -> bool {
        &&& t.to@ == self.proposal(id).unwrap().proposer@
        &&& t.payment@ == self.proposal(id).unwrap().fee_payment@
        &&& next.proposals@ == self.proposals@.update(id - 1, None)
        &&& next.proposal_votes == self.proposal_votes
        &&& next.user_voted_proposals == self.user_voted_proposals
        &&& next.proposal_remaining_fees == self.proposal_remaining_fees
        &&& next.events@ == self.events@.push(GovernanceEvent::ProposalCanceled { proposal_id: id })
    }

    /// The engine's own address, its configuration and the services' addresses are those of `other`.
    pub open spec fn same_setup(&self, other: &GovernanceV2) -> bool {
        &&& self.self_address == other.self_address
        &&& self.config == other.config
        &&& self.energy_factory_address == other.energy_factory_address
        &&& self.fees_collector_address == other.fees_collector_address
    }
}

proof fn lemma_total_gas_step(actions: Seq<GovernanceAction>, i: int)
    requires
        0 <= i < actions.len(),
    ensures
        spec_total_gas(actions.subrange(0, i + 1)) == spec_total_gas(actions.subrange(0, i))
            + actions[i].gas_limit,
{
    assert(actions.subrange(0, i + 1).drop_last() =~= actions.subrange(0, i));
}

/// Whether some action alone needs the gas limit of a block or more.
fn some_action_over_limit(actions: &Vec<GovernanceAction>) -> (r: bool)
    ensures
        r == spec_some_action_over_limit(actions@),
{
    let mut i: usize = 0;
    while i < actions.len()
        invariant
            i <= actions@.len(),
            forall|j: int| 0 <= j < i ==> (#[trigger] actions@[j]).gas_limit < MAX_GAS_LIMIT_PER_BLOCK,
        decreases actions@.len() - i,
    {
        if actions[i].gas_limit >= MAX_GAS_LIMIT_PER_BLOCK {
            return true;
        }
        i = i + 1;
    }
    false
}

impl GovernanceV2 {
    /// Sets the engine up with its configuration; refuses a percentage over 100%.
    pub fn init(
        self_address: Address,
        config: GovernanceConfig,
        energy_factory_address: Address,
        fees_collector_address: Address,
    ) -> (r: Result<GovernanceV2, GovError>)
        ensures
            r is Err <==> !config.wf(),
            r is Err ==> r == Err::<GovernanceV2, GovError>(GovError::InvalidPercentage),
            r matches Ok(g) ==> {
                &&& g.wf()
                &&& g.self_address == self_address
                &&& g.config == config
                &&& g.energy_factory_address == energy_factory_address
                &&& g.fees_collector_address == fees_collector_address
                &&& g.proposals@.len() == 0
                &&& g.proposal_votes@.len() == 0
                &&& g.user_voted_proposals@.len() == 0
                &&& g.proposal_remaining_fees@.len() == 0
                &&& g.events@.len() == 0
            },
    {
        if config.withdraw_percentage_defeated > FULL_PERCENTAGE || config.veto_percentage
            > FULL_PERCENTAGE {
            return Err(GovError::InvalidPercentage);
        }
        Ok(GovernanceV2 {
            self_address,
            config,
            energy_factory_address,
            fees_collector_address,
            proposals: Vec::new(),
            proposal_votes: Vec::new(),
            user_voted_proposals: Vec::new(),
            proposal_remaining_fees: Vec::new(),
            events: Vec::new(),
        })
    }

    /// Replaces the configuration; proposals already made keep the parameters they were made with.
    pub fn change_config(&mut self, config: GovernanceConfig) -> (r: Result<(), GovError>)
        requires
            old(self).wf(),
        ensures
            final(self).wf(),
            r is Err <==> !config.wf(),
            r is Err ==> r == Err::<(), GovError>(GovError::InvalidPercentage) && *final(self) == *old(self),
            r is Ok ==> *final(self) == (GovernanceV2 { config, ..*old(self) }),
    {
        if config.withdraw_percentage_defeated > FULL_PERCENTAGE || config.veto_percentage
            > FULL_PERCENTAGE {
            return Err(GovError::InvalidPercentage);
        }
        self.config = config;
        Ok(())
    }

    /// Total gas needed by the actions of a proposal.
    fn total_gas_needed(actions: &Vec<GovernanceAction>) -> (r: u64)
        requires
            actions@.len() <= MAX_GOVERNANCE_PROPOSAL_ACTIONS,
            !spec_some_action_over_limit(actions@),
        ensures
            r == spec_total_gas(actions@),
    {
        let mut total: u64 = 0;
        let mut i: usize = 0;
        while i < actions.len()
            invariant
                i <= actions@.len() <= MAX_GOVERNANCE_PROPOSAL_ACTIONS,
                !spec_some_action_over_limit(actions@),
                total == spec_total_gas(actions@.subrange(0, i as int)),
                total <= i * MAX_GAS_LIMIT_PER_BLOCK,
            decreases actions@.len() - i,
        {
            proof {
                lemma_total_gas_step(actions@, i as int);
                assert(actions@[i as int].gas_limit < MAX_GAS_LIMIT_PER_BLOCK);
            }
            total = total + actions[i].gas_limit;
            i = i + 1;
        }
        assert(actions@.subrange(0, i as int) =~= actions@);
        total
    }

    /// Whether `voter` has voted on proposal `id`.
    fn voted_on(&self, voter: &Address, id: ProposalId) -> (r: bool)
        ensures
            r == self.has_voted(voter@, id),
    {
        let mut i: usize = 0;
        while i < self.user_voted_proposals.len()
            invariant
                i <= self.user_voted_proposals@.len(),
                forall|j: int|
                    0 <= j < i ==> !((#[trigger] self.user_voted_proposals@[j]).0@ == voter@
                        && self.user_voted_proposals@[j].1 == id),
            decreases self.user_voted_proposals@.len() - i,
        {
            let entry = &self.user_voted_proposals[i];
            if entry.1 == id && entry.0.same_as(voter) {
                return true;
            }
            i = i + 1;
        }
        false
    }

    /// Submits a proposal and returns its id. `caller_energy` is the caller's current energy.
    pub fn propose(
        &mut self,
        caller: Address,
        description: Vec<u8>,
        actions: Vec<GovernanceAction>,
        fee_payment: EsdtTokenPayment,
        caller_energy: u128,
        current_block: u64,
    ) -> (r: Result<ProposalId, GovError>)
        requires
            old(self).wf(),
        ensures
            final(self).wf(),
            final(self).same_setup(old(self)),
            r is Ok <==> old(self).propose_error(caller, actions@, fee_payment, caller_energy) is None,
            r matches Err(e) ==> old(self).propose_error(caller, actions@, fee_payment, caller_energy)
                == Some(e) && *final(self) == *old(self),
            r matches Ok(id) ==> {
                &&& id == old(self).next_proposal_id()
                &&& final(self).next_proposal_id() == old(self).next_proposal_id() + 1
                &&& final(self).proposals@ == old(self).proposals@.push(final(self).proposals@.last())
                &&& final(self).proposals@.last() matches Some(p) && spec_new_proposal(
                    p,
                    id,
                    caller,
                    description,
                    actions,
                    fee_payment,
                    old(self).config,
                    current_block,
                )
                &&& final(self).proposal_votes@ == old(self).proposal_votes@.push(
                    final(self).proposal_votes@.last(),
                )
                &&& final(self).proposal_votes@.last().is_empty()
                &&& final(self).user_voted_proposals == old(self).user_voted_proposals
                &&& final(self).proposal_remaining_fees == old(self).proposal_remaining_fees
                &&& final(self).events@ == old(self).events@.push(
                    GovernanceEvent::ProposalCreated { proposal_id: id, proposer: caller, block: current_block },
                )
            },
    {
        if caller.same_as(&self.self_address) {
            return Err(GovError::SelfCall);
        }
        if actions.len() == 0 {
            return Err(GovError::EmptyActions);
        }
        if actions.len() > MAX_GOVERNANCE_PROPOSAL_ACTIONS {
            return Err(GovError::TooManyActions);
        }
        if caller_energy == 0 || caller_energy < self.config.min_energy_for_propose {
            return Err(GovError::InsufficientEnergy);
        }
        if !fee_payment.token_identifier.same_as(&self.config.fee_token) {
            return Err(GovError::WrongFeeToken);
        }
        if fee_payment.amount != self.config.min_fee_for_propose {
            return Err(GovError::InsufficientFee);
        }
        if some_action_over_limit(&actions) {
            return Err(GovError::GasLimitExceeded);
        }
        if Self::total_gas_needed(&actions) >= MAX_GAS_LIMIT_PER_BLOCK {
            return Err(GovError::GasLimitExceeded);
        }
        if self.proposals.len() >= MAX_PROPOSALS {
            return Err(GovError::TooManyProposals);
        }
        let proposal_id: ProposalId = (self.proposals.len() + 1) as u64;
        let proposal = GovernanceProposal {
            proposal_id,
            proposer: caller,
            description,
            actions,
            fee_payment,
            minimum_quorum: self.config.quorum,
            voting_delay_in_blocks: self.config.voting_delay_in_blocks,
            voting_period_in_blocks: self.config.voting_period_in_blocks,
            withdraw_percentage_defeated: self.config.withdraw_percentage_defeated,
            veto_percentage: self.config.veto_percentage,
            total_energy: 0,
            proposal_start_block: current_block,
        };
        self.proposals.push(Some(proposal));
        self.proposal_votes.push(ProposalVotes::empty());
        self.events.push(
            GovernanceEvent::ProposalCreated { proposal_id, proposer: caller, block: current_block },
        );
        proof {
            assert forall|i: int|
                0 <= i < self.proposals@.len() && (#[trigger] self.proposals@[i]) is Some implies {
                    &&& self.proposals@[i].unwrap().proposal_id == i + 1
                    &&& self.proposals@[i].unwrap().wf()
                } by {
                if i < old(self).proposals@.len() {
                    assert(self.proposals@[i] == old(self).proposals@[i]);
                }
            }
            assert forall|i: int| 0 <= i < self.proposal_votes@.len() implies (
            #[trigger] self.proposal_votes@[i]).wf() by {
                if i < old(self).proposal_votes@.len() {
                    assert(self.proposal_votes@[i] == old(self).proposal_votes@[i]);
                }
            }
        }
        Ok(proposal_id)
    }

    /// Whether a vote on proposal `proposal_id` would be its first, and so needs the network's
    /// total energy for the last finalised week.
    pub fn needs_week_total(&self, proposal_id: ProposalId) -> (r: bool)
        requires
            self.wf(),
        ensures
            r == (self.id_in_range(proposal_id) && self.votes(proposal_id).quorum == 0),
    {
        proposal_id != 0 && proposal_id <= self.proposals.len() as u64
            && self.proposal_votes[(proposal_id - 1) as usize].quorum == 0
    }

    /// Status of proposal `proposal_id` at `current_block`.
    pub fn status(&self, proposal_id: ProposalId, current_block: u64) -> (r: GovernanceProposalStatus)
        requires
            self.wf(),
        ensures
            r == self.spec_status(proposal_id, current_block),
    {
        if proposal_id == 0 || proposal_id > self.proposals.len() as u64 {
            return GovernanceProposalStatus::Absent;
        }
        let idx = (proposal_id - 1) as usize;
        match &self.proposals[idx] {
            None => GovernanceProposalStatus::Absent,
            Some(p) => p.status_at(&self.proposal_votes[idx], current_block),
        }
    }
}

impl GovernanceV2 {
    /// Records a vote of `caller` on proposal `proposal_id` and returns its voting power.
    /// `voter_energy` is the caller's current energy; `week_total_energy` is the network's
    /// total energy for the last finalised week, kept only by the first vote on the proposal.
    pub fn vote(
        &mut self,
        caller: Address,
        proposal_id: ProposalId,
        vote: VoteType,
        voter_energy: u128,
        week_total_energy: u128,
        current_block: u64,
    ) -> (r: Result<u128, GovError>)
        requires
            old(self).wf(),
        ensures
            final(self).wf(),
            final(self).same_setup(old(self)),
            r is Ok <==> old(self).vote_error(caller, proposal_id, voter_energy, current_block) is None,
            r matches Err(e) ==> old(self).vote_error(caller, proposal_id, voter_energy, current_block)
                == Some(e) && *final(self) == *old(self),
            r matches Ok(power) ==> old(self).vote_applied(
                *final(self),
                caller,
                proposal_id,
                vote,
                voter_energy,
                week_total_energy,
                power,
            ),
    {
        if caller.same_as(&self.self_address) {
            return Err(GovError::SelfCall);
        }
        if proposal_id == 0 || proposal_id > self.proposals.len() as u64 {
            return Err(GovError::NotFound);
        }
        let idx = (proposal_id - 1) as usize;
        let status = match &self.proposals[idx] {
            None => {
                return Err(GovError::NotFound);
            },
            Some(p) => p.status_at(&self.proposal_votes[idx], current_block),
        };
        if status != GovernanceProposalStatus::Active {
            return Err(GovError::ProposalNotActive);
        }
        if self.voted_on(&caller, proposal_id) {
            return Err(GovError::AlreadyVoted);
        }
        if voter_energy == 0 {
            return Err(GovError::ZeroEnergy);
        }
        let voting_power = sqrt_floor(voter_energy);
        let votes = self.proposal_votes[idx];
        let new_votes = match votes.add_vote(vote, voting_power, voter_energy) {
            None => {
                return Err(GovError::VoteOverflow);
            },
            Some(v) => v,
        };
        if votes.quorum == 0 {
            match &mut self.proposals[idx] {
                Some(p) => {
                    p.total_energy = week_total_energy;
                },
                None => {},
            }
        }
        self.proposal_votes[idx] = new_votes;
        self.user_voted_proposals.push((caller, proposal_id));
        self.events.push(
            GovernanceEvent::VoteCast { vote, voter: caller, proposal_id, power: voting_power },
        );
        proof {
            assert forall|i: int|
                0 <= i < self.proposals@.len() && (#[trigger] self.proposals@[i]) is Some implies {
                    &&& self.proposals@[i].unwrap().proposal_id == i + 1
                    &&& self.proposals@[i].unwrap().wf()
                } by {
                assert(old(self).proposals@[i] is Some);
            }
            assert forall|i: int| 0 <= i < self.proposal_votes@.len() implies (
            #[trigger] self.proposal_votes@[i]).wf() by {
                if i != idx {
                    assert(self.proposal_votes@[i] == old(self).proposal_votes@[i]);
                }
            }
        }
        Ok(voting_power)
    }

    /// A payment of `amount` in the token of proposal `id`'s fee.
    fn fee_part(&self, id: ProposalId, amount: u128) -> (r: EsdtTokenPayment)
        requires
            self.wf(),
            self.proposal(id) is Some,
        ensures
            r@ == (
                self.proposal(id).unwrap().fee_payment.token_identifier@,
                self.proposal(id).unwrap().fee_payment.token_nonce,
                amount,
            ),
    {
        let idx = (id - 1) as usize;
        match &self.proposals[idx] {
            Some(p) => EsdtTokenPayment::new(
                p.fee_payment.token_identifier.copy(),
                p.fee_payment.token_nonce,
                amount,
            ),
            None => {
                proof {
                    assert(false);
                }
                EsdtTokenPayment::new(self.config.fee_token.copy(), 0, 0)
            },
        }
    }

    /// The transfer that pays `amount` of proposal `id`'s fee token back to its proposer.
    fn refund_proposal_fee(&self, id: ProposalId, amount: u128) -> (r: Transfer)
        requires
            self.wf(),
            self.proposal(id) is Some,
        ensures
            r.to@ == self.proposal(id).unwrap().proposer@,
            r.payment@ == (
                self.proposal(id).unwrap().fee_payment.token_identifier@,
                self.proposal(id).unwrap().fee_payment.token_nonce,
                amount,
            ),
    {
        let idx = (id - 1) as usize;
        let to = match &self.proposals[idx] {
            Some(p) => p.proposer,
            None => self.self_address,
        };
        Transfer { to, payment: self.fee_part(id, amount) }
    }

    /// Cancels a proposal that is still pending; only its proposer may. Returns the transfer
    /// that refunds the whole fee, and clears the proposal from the registry.
    pub fn cancel(&mut self, caller: Address, proposal_id: ProposalId, current_block: u64) -> (r:
        Result<Transfer, GovError>)
        requires
            old(self).wf(),
        ensures
            final(self).wf(),
            final(self).same_setup(old(self)),
            r is Ok <==> old(self).cancel_error(caller, proposal_id, current_block) is None,
            r matches Err(e) ==> old(self).cancel_error(caller, proposal_id, current_block) == Some(e)
                && *final(self) == *old(self),
            r matches Ok(t) ==> old(self).cancel_applied(*final(self), proposal_id, t),
    {
        if caller.same_as(&self.self_address) {
            return Err(GovError::SelfCall);
        }
        match self.status(proposal_id, current_block) {
            GovernanceProposalStatus::Absent => Err(GovError::NotFound),
            GovernanceProposalStatus::Pending => {
                let idx = (proposal_id - 1) as usize;
                let (is_proposer, fee) = match &self.proposals[idx] {
                    Some(p) => (caller.same_as(&p.proposer), p.fee_payment.amount),
                    None => (false, 0),
                };
                if !is_proposer {
                    return Err(GovError::NotProposer);
                }
                let refund = self.refund_proposal_fee(proposal_id, fee);
                self.proposals[idx] = None;
                self.events.push(GovernanceEvent::ProposalCanceled { proposal_id });
                Ok(refund)
            },
            _ => Err(GovError::NotCancellable),
        }
    }

    /// After the vote, pays the proposer back: the whole fee when the proposal succeeded or was
    /// defeated, the `withdraw_percentage_defeated` part of it when it was defeated with veto,
    /// in which case the rest is kept among the forfeited fees.
    pub fn withdraw_deposit(&mut self, caller: Address, proposal_id: ProposalId, current_block: u64) -> (r:
        Result<Transfer, GovError>)
        requires
            old(self).wf(),
        ensures
            final(self).wf(),
            final(self).same_setup(old(self)),
            r is Ok <==> old(self).withdraw_error(caller, proposal_id, current_block) is None,
            r matches Err(e) ==> old(self).withdraw_error(caller, proposal_id, current_block) == Some(e)
                && *final(self) == *old(self),
            r matches Ok(t) ==> {
                let p = old(self).proposal(proposal_id).unwrap();
                let fee = p.fee_payment.amount;
                &&& t.to@ == p.proposer@
                &&& t.payment.token_identifier@ == p.fee_payment.token_identifier@
                &&& t.payment.token_nonce == p.fee_payment.token_nonce
                &&& final(self).proposals == old(self).proposals
                &&& final(self).proposal_votes == old(self).proposal_votes
                &&& final(self).user_voted_proposals == old(self).user_voted_proposals
                &&& final(self).events@ == old(self).events@.push(
                    GovernanceEvent::ProposalWithdrawnAfterResolution { proposal_id },
                )
                &&& if old(self).spec_status(proposal_id, current_block)
                    == GovernanceProposalStatus::DefeatedWithVeto {
                    &&& t.payment.amount == spec_refund(fee, p.withdraw_percentage_defeated)
                    &&& final(self).proposal_remaining_fees@ == old(self).proposal_remaining_fees@.push(
                        final(self).proposal_remaining_fees@.last(),
                    )
                    &&& final(self).proposal_remaining_fees@.last()@ == (
                        p.fee_payment.token_identifier@,
                        p.fee_payment.token_nonce,
                        (fee - t.payment.amount) as u128,
                    )
                } else {
                    &&& t.payment.amount == fee
                    &&& final(self).proposal_remaining_fees == old(self).proposal_remaining_fees
                }
            },
    {
        if caller.same_as(&self.self_address) {
            return Err(GovError::SelfCall);
        }
        let status = self.status(proposal_id, current_block);
        match status {
            GovernanceProposalStatus::Absent => {
                return Err(GovError::NotFound);
            },
            GovernanceProposalStatus::Pending | GovernanceProposalStatus::Active => {
                return Err(GovError::NotWithdrawable);
            },
            _ => {},
        }
        let idx = (proposal_id - 1) as usize;
        let (is_proposer, fee, percentage) = match &self.proposals[idx] {
            Some(p) => (caller.same_as(&p.proposer), p.fee_payment.amount, p.withdraw_percentage_defeated),
            None => (false, 0, 0),
        };
        if !is_proposer {
            return Err(GovError::NotProposer);
        }
        if status == GovernanceProposalStatus::DefeatedWithVeto {
            let (refund_amount, remaining_fee) = split_fee(fee, percentage);
            let refund = self.refund_proposal_fee(proposal_id, refund_amount);
            let kept = self.fee_part(proposal_id, remaining_fee);
            self.proposal_remaining_fees.push(kept);
            self.events.push(GovernanceEvent::ProposalWithdrawnAfterResolution { proposal_id });
            Ok(refund)
        } else {
            let refund = self.refund_proposal_fee(proposal_id, fee);
            self.events.push(GovernanceEvent::ProposalWithdrawnAfterResolution { proposal_id });
            Ok(refund)
        }
    }
}

} // verus!
