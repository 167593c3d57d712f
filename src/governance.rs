use crate::anchoring::{L2StateSummary, StateAnchoring};
use crate::encoding::str_equal;
use crate::errors::BridgeError;
use crate::policies::{voting_power_of, GovernanceValidatorPolicies, ValidatorPolicy};
use crate::registry::{ValidatorNode, ValidatorRegistry};
use crate::validator_rewards_tokenomics::ValidatorRewards;
use vstd::prelude::*;

verus! {

/// The protocol parameters that a proposal can change.
#[derive(Debug, Clone, Copy, PartialEq, Eq, Structural)]
pub enum GovernanceParameter {
    /// Seconds between anchoring cycles.
    AnchoringFrequency,
    /// Reward per validator per cycle.
    RewardRate,
    /// A name that no subsystem owns.
    Unknown,
}

pub open spec fn parameter_named(name: Seq<char>) -> GovernanceParameter {
    if name == "anchoring_frequency"@ {
        GovernanceParameter::AnchoringFrequency
    } else if name == "reward_rate"@ {
        GovernanceParameter::RewardRate
    } else {
        GovernanceParameter::Unknown
    }
}

impl GovernanceParameter {
    pub fn from_name(name: &str) -> (r: GovernanceParameter)
        ensures
            r == parameter_named(name@),
    {
        if str_equal(name, "anchoring_frequency") {
            GovernanceParameter::AnchoringFrequency
        } else if str_equal(name, "reward_rate") {
            GovernanceParameter::RewardRate
        } else {
            GovernanceParameter::Unknown
        }
    }
}

/// A proposal to set `param` to `value`. `voting_power` is the snapshot taken
/// at approval, zero before.
#[derive(Debug)]
pub struct GovernanceProposal {
    pub proposal_id: u64,
    pub description: String,
    pub param: String,
    pub value: u64,
    pub approved: bool,
    pub voting_power: u64,
}

impl GovernanceProposal {
    pub fn duplicate(&self) -> (r: GovernanceProposal)
        ensures
            r == *self,
    {
        GovernanceProposal {
            proposal_id: self.proposal_id,
            description: self.description.clone(),
            param: self.param.clone(),
            value: self.value,
            approved: self.approved,
            voting_power: self.voting_power,
        }
    }
}

/// Sum of the voting power of the nodes under `policy`.
pub open spec fn total_voting_power(nodes: Seq<ValidatorNode>, policy: ValidatorPolicy) -> int
    decreases nodes.len(),
{
    if nodes.len() == 0 {
        0
    } else {
        total_voting_power(nodes.drop_last(), policy) + voting_power_of(nodes.last(), policy)
    }
}

/// The approval snapshot: the total, capped at `u64::MAX`.
pub open spec fn voting_snapshot(nodes: Seq<ValidatorNode>, policy: ValidatorPolicy) -> u64 {
    let t = total_voting_power(nodes, policy);
    if t > u64::MAX {
        u64::MAX
    } else {
        t as u64
    }
}

proof fn lemma_total_nonnegative(nodes: Seq<ValidatorNode>, policy: ValidatorPolicy)
    ensures
        total_voting_power(nodes, policy) >= 0,
    decreases nodes.len(),
{
    if nodes.len() > 0 {
        lemma_total_nonnegative(nodes.drop_last(), policy);
        assert(voting_power_of(nodes.last(), policy) >= 0) by (nonlinear_arith)
            requires
                voting_power_of(nodes.last(), policy) == if !nodes.last().active {
                    0
                } else {
                    (100 * crate::policies::stake_numerator(nodes.last(), policy)
                        * crate::policies::compliance_numerator(nodes.last(), policy)) / (
                    crate::policies::stake_denominator(policy)
                        * crate::policies::compliance_denominator(nodes.last(), policy))
                },
                crate::policies::stake_numerator(nodes.last(), policy) >= 0,
                crate::policies::compliance_numerator(nodes.last(), policy) >= 0,
                crate::policies::stake_denominator(policy) > 0,
                crate::policies::compliance_denominator(nodes.last(), policy) > 0,
        ;
    }
}

/// What `approve_proposal` answers for `proposal_id`.
pub open spec fn approval_outcome(proposals: Seq<GovernanceProposal>, proposal_id: u64) -> Result<
    (),
    BridgeError,
> {
    if proposal_id == 0 || proposal_id > proposals.len() {
        Err(BridgeError::ProposalNotFound)
    } else if proposals[proposal_id - 1].approved {
        Err(BridgeError::ProposalAlreadyApproved)
    } else if parameter_named(proposals[proposal_id - 1].param@) == GovernanceParameter::Unknown {
        Err(BridgeError::UnknownParameter)
    } else {
        Ok(())
    }
}

/// The proposal set. Ids count up from 1: the proposal with id `n` is at
/// position `n - 1`.
#[derive(Debug)]
pub struct CrossLayerGovernance {
    pub proposals: Vec<GovernanceProposal>,
}

impl CrossLayerGovernance {
    pub open spec fn wf(&self) -> bool {
        forall|i: int|
            0 <= i < self.proposals@.len() ==> #[trigger] self.proposals@[i].proposal_id == i + 1
    }

    pub fn new() -> (r: CrossLayerGovernance)
        ensures
            r.wf(),
            r.proposals@.len() == 0,
    {
        CrossLayerGovernance { proposals: Vec::new() }
    }

    /// A proposal set over `proposals`, which must be numbered 1, 2, 3, ...
    /// in order; `None` otherwise.
    pub fn from_proposals(proposals: Vec<GovernanceProposal>) -> (r: Option<CrossLayerGovernance>)
        ensures
            r is Some <==> forall|i: int|
                0 <= i < proposals@.len() ==> #[trigger] proposals@[i].proposal_id == i + 1,
            r matches Some(g) ==> g.wf() && g.proposals@ == proposals@,
    {
        let mut i: usize = 0;
        while i < proposals.len()
            invariant
                i <= proposals.len(),
                forall|j: int| 0 <= j < i ==> #[trigger] proposals@[j].proposal_id == j + 1,
            decreases proposals.len() - i,
        {
            if proposals[i].proposal_id as u128 != i as u128 + 1 {
                return None;
            }
            i = i + 1;
        }
        Some(CrossLayerGovernance { proposals })
    }

    /// Records a new, unapproved proposal under the next id.
    pub fn submit_proposal(&mut self, description: String, param: String, value: u64) -> (r: Result<
        u64,
        BridgeError,
    >)
        requires
            old(self).wf(),
        ensures
            final(self).wf(),
            old(self).proposals@.len() < u64::MAX ==> r == Ok::<u64, BridgeError>(
                (old(self).proposals@.len() + 1) as u64,
            ) && final(self).proposals@ == old(self).proposals@.push(
                GovernanceProposal {
                    proposal_id: (old(self).proposals@.len() + 1) as u64,
                    description,
                    param,
                    value,
                    approved: false,
                    voting_power: 0,
                },
            ),
            old(self).proposals@.len() >= u64::MAX ==> r == Err::<u64, BridgeError>(
                BridgeError::Overflow,
            ) && *final(self) == *old(self),
    {
        let n = self.proposals.len();
        if n as u64 >= u64::MAX {
            return Err(BridgeError::Overflow);
        }
        let proposal_id = (n as u64) + 1;
        let proposal = GovernanceProposal {
            proposal_id,
            description,
            param,
            value,
            approved: false,
            voting_power: 0,
        };
        self.proposals.push(proposal);
        Ok(proposal_id)
    }

    /// Approves a proposal and applies it in one step: an unknown id, an
    /// approved proposal and an unknown parameter are rejected with nothing
    /// changed. Otherwise the proposal records the current voting-power
    /// snapshot and its value goes to the subsystem that owns the parameter.
    pub fn approve_proposal(
        &mut self,
        proposal_id: u64,
        validator_registry: &ValidatorRegistry,
        governance_policies: &GovernanceValidatorPolicies,
        state_anchoring: &mut StateAnchoring,
        rewards: &mut ValidatorRewards,
    ) -> (r: Result<(), BridgeError>)
        requires
            old(self).wf(),
        ensures
            final(self).wf(),
            r == approval_outcome(old(self).proposals@, proposal_id),
            r is Err ==> *final(self) == *old(self) && *final(state_anchoring) == *old(state_anchoring) && *final(rewards) == *old(rewards),
            r is Ok ==> {
                let p = old(self).proposals@[proposal_id - 1];
                let kind = parameter_named(p.param@);
                &&& final(self).proposals@ == old(self).proposals@.update(
                    proposal_id - 1,
                    GovernanceProposal {
                        approved: true,
                        voting_power: voting_snapshot(
                            validator_registry.nodes@,
                            governance_policies.policy,
                        ),
                        ..p
                    },
                )
                &&& final(state_anchoring).anchored_states == old(state_anchoring).anchored_states
                &&& final(rewards).validator_records == old(rewards).validator_records
                &&& kind == GovernanceParameter::AnchoringFrequency ==> final(state_anchoring).anchoring_frequency == p.value && *final(rewards) == *old(rewards)
                &&& kind == GovernanceParameter::RewardRate ==> final(rewards).reward_rate == p.value
                    && *final(state_anchoring) == *old(state_anchoring)
            },
    {
        if proposal_id == 0 || proposal_id > self.proposals.len() as u64 {
            return Err(BridgeError::ProposalNotFound);
        }
        let k = (proposal_id - 1) as usize;
        if self.proposals[k].approved {
            return Err(BridgeError::ProposalAlreadyApproved);
        }
        let kind = GovernanceParameter::from_name(self.proposals[k].param.as_str());
        let value = self.proposals[k].value;
        match kind {
            GovernanceParameter::Unknown => {
                return Err(BridgeError::UnknownParameter);
            },
            GovernanceParameter::AnchoringFrequency => {
                let _ = state_anchoring.update_frequency(value);
            },
            GovernanceParameter::RewardRate => {
                let _ = rewards.adjust_reward_rate(value);
            },
        }
        let mut proposal = self.proposals[k].duplicate();
        proposal.approved = true;
        proposal.voting_power = Self::calculate_voting_power(validator_registry, governance_policies);
        self.proposals.set(k, proposal);
        Ok(())
    }

    /// The total voting power of the registry's validators (inactive ones
    /// count zero), capped at `u64::MAX`.
    pub fn calculate_voting_power(
        validator_registry: &ValidatorRegistry,
        governance_policies: &GovernanceValidatorPolicies,
    ) -> (r: u64)
        ensures
            r == voting_snapshot(validator_registry.nodes@, governance_policies.policy),
    {
        let nodes = &validator_registry.nodes;
        let ghost policy = governance_policies.policy;
        let mut total: u64 = 0;
        let mut i: usize = 0;
        while i < nodes.len()
            invariant
                i <= nodes.len(),
                policy == governance_policies.policy,
                total == voting_snapshot(nodes@.subrange(0, i as int), policy),
            decreases nodes.len() - i,
        {
            let ghost prefix = nodes@.subrange(0, i as int);
            let power = governance_policies.adjust_voting_power(&nodes[i]);
            proof {
                assert(nodes@.subrange(0, i + 1).drop_last() =~= prefix);
                lemma_total_nonnegative(prefix, policy);
            }
            total = if power > u64::MAX - total {
                u64::MAX
            } else {
                total + power
            };
            i = i + 1;
        }
        assert(nodes@.subrange(0, i as int) =~= nodes@);
        total
    }

    /// Every proposal, in id order.
    pub fn list_proposals(&self) -> (r: Vec<GovernanceProposal>)
        ensures
            r@ == self.proposals@,
    {
        let mut out: Vec<GovernanceProposal> = Vec::new();
        let mut i: usize = 0;
        while i < self.proposals.len()
            invariant
                i <= self.proposals.len(),
                out@ == self.proposals@.subrange(0, i as int),
            decreases self.proposals.len() - i,
        {
            out.push(self.proposals[i].duplicate());
            i = i + 1;
            assert(out@ =~= self.proposals@.subrange(0, i as int));
        }
        assert(out@ =~= self.proposals@);
        out
    }

    /// Audit check from the base layer: succeeds only for an approved
    /// proposal, and changes nothing.
    pub fn validate_l1_proposal(&self, state_summary: &L2StateSummary, proposal_id: u64) -> (r:
        Result<(), BridgeError>)
        ensures
            proposal_id == 0 || proposal_id > self.proposals@.len() ==> r == Err::<(), BridgeError>(
                BridgeError::ProposalNotFound,
            ),
            1 <= proposal_id <= self.proposals@.len() ==> (r is Ok <==> self.proposals@[proposal_id
                - 1].approved),
            r is Err ==> r == Err::<(), BridgeError>(BridgeError::ProposalNotFound) || r == Err::<
                (),
                BridgeError,
            >(BridgeError::ProposalNotApproved),
    {
        if proposal_id == 0 || proposal_id > self.proposals.len() as u64 {
            return Err(BridgeError::ProposalNotFound);
        }
        if self.proposals[(proposal_id - 1) as usize].approved {
            Ok(())
        } else {
            Err(BridgeError::ProposalNotApproved)
        }
    }
}

/// Once a proposal has been approved, approving it again is rejected.
pub proof fn lemma_second_approval_rejected(
    before: Seq<GovernanceProposal>,
    after: Seq<GovernanceProposal>,
    proposal_id: u64,
    snapshot: u64,
)
    requires
        approval_outcome(before, proposal_id) is Ok,
        after == before.update(
            proposal_id - 1,
            GovernanceProposal { approved: true, voting_power: snapshot, ..before[proposal_id - 1] },
        ),
    ensures
        approval_outcome(after, proposal_id) == Err::<(), BridgeError>(
            BridgeError::ProposalAlreadyApproved,
        ),
{
}

} // verus!
