use crate::errors::BridgeError;
use crate::registry::ValidatorNode;
use crate::validator_rewards_tokenomics::{
    has_record,
    record_index,
    saturating_sum,
    ValidatorRewardRecord,
    ValidatorRewards,
};
use vstd::prelude::*;

verus! {

/// The governance-side view of validator rewards.
#[derive(Debug)]
pub struct GovernanceModule {
    pub rewards: ValidatorRewards,
}

impl GovernanceModule {
    pub fn new(reward_rate: u64) -> (r: GovernanceModule)
        ensures
            r.rewards.reward_rate == reward_rate,
            r.rewards.validator_records@.len() == 0,
    {
        GovernanceModule { rewards: ValidatorRewards::new(reward_rate) }
    }

    pub fn register_validator(&mut self, address: String, locked_btcz: u64) -> (r: Result<
        (),
        BridgeError,
    >)
        ensures
            final(self).rewards.reward_rate == old(self).rewards.reward_rate,
            r is Err <==> has_record(old(self).rewards.validator_records@, address@),
            r is Err ==> r == Err::<(), BridgeError>(BridgeError::ValidatorAlreadyRegistered)
                && final(self).rewards.validator_records == old(self).rewards.validator_records,
            r is Ok ==> final(self).rewards.validator_records@.drop_last() == old(
                self,
            ).rewards.validator_records@ && final(self).rewards.validator_records@.len() == old(
                self,
            ).rewards.validator_records@.len() + 1
                && final(self).rewards.validator_records@.last().address == address
                && final(self).rewards.validator_records@.last().rewards_earned == 0,
    {
        self.rewards.register_validator(address, locked_btcz)
    }

    /// Runs one reward cycle: every registered validator earns the reward
    /// rate, saturating at `u64::MAX`.
    pub fn distribute_rewards(&mut self, validators: &[ValidatorNode]) -> (r: Result<(), BridgeError>)
        ensures
            r is Ok,
            final(self).rewards.reward_rate == old(self).rewards.reward_rate,
            final(self).rewards.validator_records@.len() == old(
                self,
            ).rewards.validator_records@.len(),
            forall|i: int|
                #![trigger final(self).rewards.validator_records@[i]]
                0 <= i < old(self).rewards.validator_records@.len() ==> {
                    &&& final(self).rewards.validator_records@[i].address == old(
                        self,
                    ).rewards.validator_records@[i].address
                    &&& final(self).rewards.validator_records@[i].rewards_earned == saturating_sum(
                        old(self).rewards.validator_records@[i].rewards_earned,
                        old(self).rewards.reward_rate,
                    )
                },
    {
        match self.rewards.distribute_rewards(validators) {
            Ok(_) => Ok(()),
            Err(e) => Err(e),
        }
    }

    /// Takes `penalty` from the rewards of `address`, stopping at zero.
    pub fn slash_validator(&mut self, address: String, penalty: u64) -> (r: Result<(), BridgeError>)
        ensures
            final(self).rewards.reward_rate == old(self).rewards.reward_rate,
            r is Err <==> !has_record(old(self).rewards.validator_records@, address@),
            r is Err ==> r == Err::<(), BridgeError>(BridgeError::ValidatorNotFound)
                && final(self).rewards.validator_records == old(self).rewards.validator_records,
            r is Ok ==> exists|k: int|
                #[trigger] record_index(old(self).rewards.validator_records@, k, address@)
                    && final(self).rewards.validator_records@ == old(
                    self,
                ).rewards.validator_records@.update(
                    k,
                    ValidatorRewardRecord {
                        rewards_earned: if old(self).rewards.validator_records@[k].rewards_earned
                            > penalty {
                            (old(self).rewards.validator_records@[k].rewards_earned - penalty) as u64
                        } else {
                            0
                        },
                        ..old(self).rewards.validator_records@[k]
                    },
                ),
    {
        self.rewards.slash_validator(address, penalty)
    }
}

} // verus!
