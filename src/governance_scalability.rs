use crate::errors::BridgeError;
use vstd::prelude::*;

verus! {

/// A parameter and the value a proposal would give it.
#[derive(Debug)]
pub struct ParameterChange {
    pub param: String,
    pub value: u64,
}

/// A stake-weighted vote on an optional parameter change.
#[derive(Debug)]
pub struct Proposal {
    pub id: u64,
    pub creator: String,
    pub description: String,
    pub param_change: Option<ParameterChange>,
    pub votes_for: u64,
    pub votes_against: u64,
    pub executed: bool,
}

/// Proposals under vote. Ids count up from 1: the proposal with id `n` is at
/// position `n - 1`, and `next_proposal_id` is the next free id.
#[derive(Debug)]
pub struct GovernanceState {
    pub proposals: Vec<Proposal>,
    pub next_proposal_id: u64,
}

impl GovernanceState {
    pub open spec fn wf(&self) -> bool {
        &&& self.next_proposal_id == self.proposals@.len() + 1
        &&& forall|i: int|
            0 <= i < self.proposals@.len() ==> #[trigger] self.proposals@[i].id == i + 1
    }

    pub fn new() -> (r: GovernanceState)
        ensures
            r.wf(),
            r.proposals@.len() == 0,
    {
        GovernanceState { proposals: Vec::new(), next_proposal_id: 1 }
    }

    /// Opens a proposal with no votes under the next id and returns that id.
    pub fn create_proposal(
        &mut self,
        creator: String,
        description: String,
        param_change: Option<ParameterChange>,
    ) -> (r: Result<u64, BridgeError>)
        requires
            old(self).wf(),
        ensures
            final(self).wf(),
            old(self).next_proposal_id < u64::MAX ==> r == Ok::<u64, BridgeError>(
                old(self).next_proposal_id,
            ) && final(self).proposals@ == old(self).proposals@.push(
                Proposal {
                    id: old(self).next_proposal_id,
                    creator,
                    description,
                    param_change,
                    votes_for: 0,
                    votes_against: 0,
                    executed: false,
                },
            ),
            old(self).next_proposal_id == u64::MAX ==> r == Err::<u64, BridgeError>(
                BridgeError::Overflow,
            ) && *final(self) == *old(self),
    {
        if self.next_proposal_id == u64::MAX {
            return Err(BridgeError::Overflow);
        }
        let id = self.next_proposal_id;
        let proposal = Proposal {
            id,
            creator,
            description,
            param_change,
            votes_for: 0,
            votes_against: 0,
            executed: false,
        };
        self.proposals.push(proposal);
        self.next_proposal_id = id + 1;
        Ok(id)
    }

    /// Adds `voting_power` to the votes for or against an open proposal.
    pub fn vote_on_proposal(&mut self, proposal_id: u64, support: bool, voting_power: u64) -> (r:
        Result<(), BridgeError>)
        requires
            old(self).wf(),
        ensures
            final(self).wf(),
            proposal_id == 0 || proposal_id > old(self).proposals@.len() ==> r == Err::<
                (),
                BridgeError,
            >(BridgeError::ProposalNotFound),
            r is Err ==> *final(self) == *old(self),
            1 <= proposal_id <= old(self).proposals@.len() ==> {
                let p = old(self).proposals@[proposal_id - 1];
                &&& p.executed ==> r == Err::<(), BridgeError>(BridgeError::ProposalAlreadyExecuted)
                &&& !p.executed && support && p.votes_for + voting_power > u64::MAX ==> r == Err::<
                    (),
                    BridgeError,
                >(BridgeError::Overflow)
                &&& !p.executed && !support && p.votes_against + voting_power > u64::MAX ==> r
                    == Err::<(), BridgeError>(BridgeError::Overflow)
                &&& !p.executed && support && p.votes_for + voting_power <= u64::MAX ==> r is Ok
                    && final(self).proposals@ == old(self).proposals@.update(
                    proposal_id - 1,
                    Proposal { votes_for: (p.votes_for + voting_power) as u64, ..p },
                )
                &&& !p.executed && !support && p.votes_against + voting_power <= u64::MAX ==> r is Ok
                    && final(self).proposals@ == old(self).proposals@.update(
                    proposal_id - 1,
                    Proposal { votes_against: (p.votes_against + voting_power) as u64, ..p },
                )
            },
    {
        if proposal_id == 0 || proposal_id > self.proposals.len() as u64 {
            return Err(BridgeError::ProposalNotFound);
        }
        let k = (proposal_id - 1) as usize;
        if self.proposals[k].executed {
            return Err(BridgeError::ProposalAlreadyExecuted);
        }
        let ghost before = self.proposals@;
        if support {
            if voting_power > u64::MAX - self.proposals[k].votes_for {
                return Err(BridgeError::Overflow);
            }
            let mut p = self.take(k);
            p.votes_for = p.votes_for + voting_power;
            self.proposals.set(k, p);
        } else {
            if voting_power > u64::MAX - self.proposals[k].votes_against {
                return Err(BridgeError::Overflow);
            }
            let mut p = self.take(k);
            p.votes_against = p.votes_against + voting_power;
            self.proposals.set(k, p);
        }
        Ok(())
    }

    /// Marks a proposal executed when it has more votes for than against.
    pub fn execute_proposal(&mut self, proposal_id: u64) -> (r: Result<(), BridgeError>)
        requires
            old(self).wf(),
        ensures
            final(self).wf(),
            proposal_id == 0 || proposal_id > old(self).proposals@.len() ==> r == Err::<
                (),
                BridgeError,
            >(BridgeError::ProposalNotFound),
            r is Err ==> *final(self) == *old(self),
            1 <= proposal_id <= old(self).proposals@.len() ==> {
                let p = old(self).proposals@[proposal_id - 1];
                &&& p.executed ==> r == Err::<(), BridgeError>(BridgeError::ProposalAlreadyExecuted)
                &&& !p.executed && p.votes_for <= p.votes_against ==> r == Err::<(), BridgeError>(
                    BridgeError::ProposalDidNotPass,
                )
                &&& !p.executed && p.votes_for > p.votes_against ==> r is Ok
                    && final(self).proposals@ == old(self).proposals@.update(
                    proposal_id - 1,
                    Proposal { executed: true, ..p },
                )
            },
    {
        if proposal_id == 0 || proposal_id > self.proposals.len() as u64 {
            return Err(BridgeError::ProposalNotFound);
        }
        let k = (proposal_id - 1) as usize;
        if self.proposals[k].executed {
            return Err(BridgeError::ProposalAlreadyExecuted);
        }
        if self.proposals[k].votes_for > self.proposals[k].votes_against {
            let mut p = self.take(k);
            p.executed = true;
            self.proposals.set(k, p);
            Ok(())
        } else {
            Err(BridgeError::ProposalDidNotPass)
        }
    }

    /// A copy of the proposal at `k`.
    fn take(&self, k: usize) -> (r: Proposal)
        requires
            k < self.proposals@.len(),
        ensures
            r == self.proposals@[k as int],
    {
        let p = &self.proposals[k];
        Proposal {
            id: p.id,
            creator: p.creator.clone(),
            description: p.description.clone(),
            param_change: match &p.param_change {
                Some(c) => Some(ParameterChange { param: c.param.clone(), value: c.value }),
                None => None,
            },
            votes_for: p.votes_for,
            votes_against: p.votes_against,
            executed: p.executed,
        }
    }
}

} // verus!
