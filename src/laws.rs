use vstd::prelude::*;
use crate::governance::{GovError, GovernanceV2};
use crate::proposal::{
    FULL_PERCENTAGE, GovernanceProposalStatus, ProposalId, ProposalVotes, VoteType, spec_refund,
};
use crate::types::{Address, Transfer};

verus! {

proof fn lemma_next_id_counts(states: Seq<GovernanceV2>, k: int)
    requires
        0 <= k < states.len(),
        states[0].proposals@.len() == 0,
        forall|j: int|
            0 <= j < states.len() - 1 ==> #[trigger] states[j + 1].next_proposal_id()
                == states[j].next_proposal_id() + 1,
    ensures
        states[k].next_proposal_id() == k + 1,
    decreases k,
{
    if k > 0 {
        lemma_next_id_counts(states, k - 1);
        assert(states[(k - 1) + 1].next_proposal_id() == states[k - 1].next_proposal_id() + 1);
    }
}

/// Successive successful proposals, starting from an empty registry, get the ids
/// 1, 2, 3, ... in call order: `states[k]` is the engine before the `k`-th proposal,
/// which returned `ids[k]` and led to `states[k + 1]`.
pub proof fn lemma_proposal_ids_in_call_order(states: Seq<GovernanceV2>, ids: Seq<ProposalId>)
    requires
        states.len() == ids.len() + 1,
        states[0].proposals@.len() == 0,
        forall|k: int| 0 <= k < ids.len() ==> #[trigger] ids[k] == states[k].next_proposal_id(),
        forall|k: int|
            0 <= k < ids.len() ==> #[trigger] states[k + 1].next_proposal_id()
                == states[k].next_proposal_id() + 1,
    ensures
        forall|k: int| 0 <= k < ids.len() ==> #[trigger] ids[k] == k + 1,
{
    assert forall|k: int| 0 <= k < ids.len() implies #[trigger] ids[k] == k + 1 by {
        lemma_next_id_counts(states, k);
    }
}

/// After `caller` has voted on proposal `id`, a second vote of theirs on it, while the
/// proposal is still active, is refused with `AlreadyVoted` (and so changes nothing).
pub proof fn lemma_second_vote_rejected(
    s0: GovernanceV2,
    s1: GovernanceV2,
    caller: Address,
    id: ProposalId,
    vote: VoteType,
    energy: u128,
    week_total_energy: u128,
    power: u128,
    second_energy: u128,
    second_block: u64,
)
    requires
        s0.wf(),
        s1.wf(),
        s1.same_setup(&s0),
        s0.vote_applied(s1, caller, id, vote, energy, week_total_energy, power),
        s1.spec_status(id, second_block) == GovernanceProposalStatus::Active,
        caller@ != s0.self_address@,
    ensures
        s1.vote_error(caller, id, second_energy, second_block) == Some(GovError::AlreadyVoted),
{
    let i = s0.user_voted_proposals@.len() as int;
    assert(s1.user_voted_proposals@[i] == (caller, id));
    assert(s1.has_voted(caller@, id));
}

/// Where every vote fits, the tally after a sequence of votes.
pub open spec fn spec_tally_after(
    start: ProposalVotes,
    categories: Seq<VoteType>,
    powers: Seq<u128>,
    energies: Seq<u128>,
) -> ProposalVotes
    decreases energies.len(),
{
    if energies.len() == 0 || categories.len() != energies.len() || powers.len() != energies.len() {
        start
    } else {
        let n = energies.len() - 1;
        spec_tally_after(
            start,
            categories.subrange(0, n),
            powers.subrange(0, n),
            energies.subrange(0, n),
        ).spec_add_vote(categories[n], powers[n], energies[n])
    }
}

/// Sum of a sequence of energies.
pub open spec fn spec_energy_sum(energies: Seq<u128>) -> int
    decreases energies.len(),
{
    if energies.len() == 0 {
        0
    } else {
        spec_energy_sum(energies.drop_last()) + energies.last()
    }
}

proof fn lemma_energy_sum_prefix(energies: Seq<u128>, n: int)
    requires
        0 <= n <= energies.len(),
    ensures
        spec_energy_sum(energies.subrange(0, n)) <= spec_energy_sum(energies),
    decreases energies.len(),
{
    if n < energies.len() {
        assert(energies.drop_last() =~= energies.subrange(0, energies.len() - 1));
        lemma_energy_sum_prefix(energies.drop_last(), n);
        assert(energies.drop_last().subrange(0, n) =~= energies.subrange(0, n));
    } else {
        assert(energies.subrange(0, n) =~= energies);
    }
}

/// Starting from an empty tally, the quorum after any votes is the sum of the voters' raw
/// energies, whatever categories they voted in and whatever power each vote carried.
pub proof fn lemma_quorum_is_energy_sum(
    start: ProposalVotes,
    categories: Seq<VoteType>,
    powers: Seq<u128>,
    energies: Seq<u128>,
)
    requires
        start.is_empty(),
        categories.len() == energies.len(),
        powers.len() == energies.len(),
        spec_energy_sum(energies) <= u128::MAX,
    ensures
        spec_tally_after(start, categories, powers, energies).quorum == spec_energy_sum(energies),
    decreases energies.len(),
{
    if energies.len() > 0 {
        let n = energies.len() - 1;
        assert(energies.drop_last() =~= energies.subrange(0, n));
        lemma_energy_sum_prefix(energies, n);
        lemma_quorum_is_energy_sum(
            start,
            categories.subrange(0, n),
            powers.subrange(0, n),
            energies.subrange(0, n),
        );
    }
}

/// The network's total energy is kept by the first vote on a proposal and by no later one:
/// after two successful votes, it is what the first vote was handed, whatever the second was.
pub proof fn lemma_total_energy_set_once(
    s0: GovernanceV2,
    s1: GovernanceV2,
    s2: GovernanceV2,
    id: ProposalId,
    caller1: Address,
    vote1: VoteType,
    energy1: u128,
    week_total1: u128,
    power1: u128,
    block1: u64,
    caller2: Address,
    vote2: VoteType,
    energy2: u128,
    week_total2: u128,
    power2: u128,
)
    requires
        s0.wf(),
        s0.votes(id).is_empty(),
        s0.vote_error(caller1, id, energy1, block1) is None,
        s0.vote_applied(s1, caller1, id, vote1, energy1, week_total1, power1),
        s1.vote_applied(s2, caller2, id, vote2, energy2, week_total2, power2),
    ensures
        s1.proposal(id).unwrap().total_energy == week_total1,
        s2.proposal(id).unwrap().total_energy == week_total1,
{
    let v1 = s0.votes(id).spec_add_vote(vote1, power1, energy1);
    assert(s1.proposal_votes@[id - 1] == v1);
    assert(v1.quorum == energy1);
    assert(s1.votes(id).quorum != 0);
}

/// A successful cancel happens only on a pending proposal, pays back the whole fee, and
/// leaves the proposal absent at every block after.
pub proof fn lemma_cancel_clears(
    s0: GovernanceV2,
    s1: GovernanceV2,
    caller: Address,
    id: ProposalId,
    block: u64,
    t: Transfer,
    later_block: u64,
)
    requires
        s0.wf(),
        s0.cancel_error(caller, id, block) is None,
        s0.cancel_applied(s1, id, t),
    ensures
        s0.spec_status(id, block) == GovernanceProposalStatus::Pending,
        t.payment.amount == s0.proposal(id).unwrap().fee_payment.amount,
        s1.spec_status(id, later_block) == GovernanceProposalStatus::Absent,
{
}

/// Cancelling fails on a proposal that is not pending.
pub proof fn lemma_cancel_needs_pending(s: GovernanceV2, caller: Address, id: ProposalId, block: u64)
    requires
        s.spec_status(id, block) != GovernanceProposalStatus::Pending,
    ensures
        s.cancel_error(caller, id, block) is Some,
{
}

/// The refund after a veto and the forfeited remainder add up to the fee, with nothing lost
/// to rounding: the refund never exceeds the fee.
pub proof fn lemma_veto_split_exact(fee: u128, percentage: u64)
    requires
        percentage <= FULL_PERCENTAGE,
    ensures
        0 <= spec_refund(fee, percentage) <= fee,
        spec_refund(fee, percentage) + (fee - spec_refund(fee, percentage)) == fee,
{
    assert(0 <= (fee * percentage) / 10000 <= fee) by (nonlinear_arith)
        requires
            0 <= fee,
            0 <= percentage <= 10000,
    ;
}

/// Status by block height: pending before the voting delay has passed, active until the
/// voting period is over, and then one of the three outcomes, fixed by the tally alone.
pub proof fn lemma_status_by_block(s: GovernanceV2, id: ProposalId, block: u64)
    requires
        s.proposal(id) is Some,
    ensures
        ({
            let p = s.proposal(id).unwrap();
            let st = s.spec_status(id, block);
            &&& block < p.voting_start() ==> st == GovernanceProposalStatus::Pending
            &&& p.voting_start() <= block < p.voting_end() ==> st == GovernanceProposalStatus::Active
            &&& p.voting_end() <= block ==> {
                ||| st == GovernanceProposalStatus::Succeeded
                ||| st == GovernanceProposalStatus::Defeated
                ||| st == GovernanceProposalStatus::DefeatedWithVeto
            }
            &&& forall|b: u64|
                p.voting_end() <= block && p.voting_end() <= b ==> #[trigger] s.spec_status(id, b) == st
        }),
{
}

} // verus!
