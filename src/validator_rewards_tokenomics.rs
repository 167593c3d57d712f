use crate::clock::unix_now;
use crate::encoding::str_equal;
use crate::errors::BridgeError;
use crate::ledger::AccountBalance;
use crate::registry::ValidatorNode;
use vstd::prelude::*;

verus! {

/// Rewards earned so far by one validator; `last_reward_time` is in seconds
/// since the Unix epoch.
#[derive(Debug)]
pub struct ValidatorRewardRecord {
    pub address: String,
    pub rewards_earned: u64,
    pub last_reward_time: i64,
}

impl ValidatorRewardRecord {
    pub fn duplicate(&self) -> (r: ValidatorRewardRecord)
        ensures
            r == *self,
    {
        ValidatorRewardRecord {
            address: self.address.clone(),
            rewards_earned: self.rewards_earned,
            last_reward_time: self.last_reward_time,
        }
    }
}

/// The amount handed to each validator in one cycle.
#[derive(Debug)]
pub struct RewardsDistribution {
    pub validator_rewards: Vec<AccountBalance>,
}

pub open spec fn record_index(s: Seq<ValidatorRewardRecord>, k: int, a: Seq<char>) -> bool {
    0 <= k < s.len() && s[k].address@ == a
}

pub open spec fn has_record(s: Seq<ValidatorRewardRecord>, a: Seq<char>) -> bool {
    exists|k: int| #[trigger] record_index(s, k, a)
}

pub open spec fn saturating_sum(a: u64, b: u64) -> u64 {
    if a + b > u64::MAX {
        u64::MAX
    } else {
        (a + b) as u64
    }
}

/// A flat reward per cycle for every registered validator.
#[derive(Debug)]
pub struct ValidatorRewards {
    pub reward_rate: u64,
    pub validator_records: Vec<ValidatorRewardRecord>,
}

impl ValidatorRewards {
    pub fn new(reward_rate: u64) -> (r: ValidatorRewards)
        ensures
            r.reward_rate == reward_rate,
            r.validator_records@.len() == 0,
    {
        ValidatorRewards { reward_rate, validator_records: Vec::new() }
    }

    fn find(&self, address: &str) -> (r: Option<usize>)
        ensures
            r matches Some(k) ==> record_index(self.validator_records@, k as int, address@),
            r is None ==> !has_record(self.validator_records@, address@),
    {
        let mut i: usize = 0;
        while i < self.validator_records.len()
            invariant
                i <= self.validator_records.len(),
                forall|j: int| 0 <= j < i ==> self.validator_records@[j].address@ != address@,
            decreases self.validator_records.len() - i,
        {
            if str_equal(self.validator_records[i].address.as_str(), address) {
                return Some(i);
            }
            i = i + 1;
        }
        assert(!has_record(self.validator_records@, address@)) by {
            if has_record(self.validator_records@, address@) {
                let k = choose|k: int| #[trigger] record_index(self.validator_records@, k, address@);
                assert(self.validator_records@[k].address@ != address@);
            }
        }
        None
    }

    /// Starts a record at zero rewards; an address already present is rejected.
    pub fn register_validator(&mut self, address: String, locked_btcz: u64) -> (r: Result<
        (),
        BridgeError,
    >)
        ensures
            final(self).reward_rate == old(self).reward_rate,
            r is Err <==> has_record(old(self).validator_records@, address@),
            r is Err ==> r == Err::<(), BridgeError>(BridgeError::ValidatorAlreadyRegistered)
                && final(self).validator_records == old(self).validator_records,
            r is Ok ==> final(self).validator_records@.drop_last() == old(
                self,
            ).validator_records@ && final(self).validator_records@.len() == old(
                self,
            ).validator_records@.len() + 1 && final(self).validator_records@.last().address
                == address && final(self).validator_records@.last().rewards_earned == 0,
    {
        if self.find(address.as_str()).is_some() {
            return Err(BridgeError::ValidatorAlreadyRegistered);
        }
        let record = ValidatorRewardRecord { address, rewards_earned: 0, last_reward_time: unix_now() };
        self.validator_records.push(record);
        assert(self.validator_records@.drop_last() =~= old(self).validator_records@);
        Ok(())
    }

    /// Adds the reward rate to every record (saturating at `u64::MAX`) and
    /// reports what each address was given.
    pub fn distribute_rewards(&mut self, validators: &[ValidatorNode]) -> (r: Result<
        RewardsDistribution,
        BridgeError,
    >)
        ensures
            final(self).reward_rate == old(self).reward_rate,
            final(self).validator_records@.len() == old(self).validator_records@.len(),
            forall|i: int|
                #![trigger final(self).validator_records@[i]]
                0 <= i < old(self).validator_records@.len() ==> {
                    &&& final(self).validator_records@[i].address == old(
                        self,
                    ).validator_records@[i].address
                    &&& final(self).validator_records@[i].rewards_earned == saturating_sum(
                        old(self).validator_records@[i].rewards_earned,
                        old(self).reward_rate,
                    )
                },
            r matches Ok(d) && (d.validator_rewards@.len() == old(self).validator_records@.len()
                && forall|i: int|
                0 <= i < d.validator_rewards@.len() ==> #[trigger] d.validator_rewards@[i].address
                    == old(self).validator_records@[i].address
                    && d.validator_rewards@[i].amount == old(self).reward_rate),
    {
        let now = unix_now();
        let rate = self.reward_rate;
        let mut given: Vec<AccountBalance> = Vec::new();
        let mut i: usize = 0;
        while i < self.validator_records.len()
            invariant
                rate == self.reward_rate,
                self.reward_rate == old(self).reward_rate,
                i <= self.validator_records.len(),
                self.validator_records@.len() == old(self).validator_records@.len(),
                given@.len() == i,
                forall|j: int|
                    #![trigger self.validator_records@[j]]
                    0 <= j < old(self).validator_records@.len() ==> {
                        &&& self.validator_records@[j].address == old(
                            self,
                        ).validator_records@[j].address
                        &&& j < i ==> self.validator_records@[j].rewards_earned == saturating_sum(
                            old(self).validator_records@[j].rewards_earned,
                            rate,
                        )
                        &&& j >= i ==> self.validator_records@[j].rewards_earned == old(
                            self,
                        ).validator_records@[j].rewards_earned
                    },
                forall|j: int|
                    0 <= j < i ==> #[trigger] given@[j].address == old(
                        self,
                    ).validator_records@[j].address && given@[j].amount == rate,
            decreases self.validator_records.len() - i,
        {
            let mut record = self.validator_records[i].duplicate();
            record.rewards_earned = if rate > u64::MAX - record.rewards_earned {
                u64::MAX
            } else {
                record.rewards_earned + rate
            };
            record.last_reward_time = now;
            given.push(AccountBalance { address: record.address.clone(), amount: rate });
            self.validator_records.set(i, record);
            i = i + 1;
        }
        Ok(RewardsDistribution { validator_rewards: given })
    }

    /// Takes `penalty` from the rewards of `address`, stopping at zero.
    pub fn slash_validator(&mut self, address: String, penalty: u64) -> (r: Result<(), BridgeError>)
        ensures
            final(self).reward_rate == old(self).reward_rate,
            r is Err <==> !has_record(old(self).validator_records@, address@),
            r is Err ==> r == Err::<(), BridgeError>(BridgeError::ValidatorNotFound)
                && final(self).validator_records == old(self).validator_records,
            r is Ok ==> exists|k: int|
                #[trigger] record_index(old(self).validator_records@, k, address@)
                    && final(self).validator_records@ == old(self).validator_records@.update(
                    k,
                    ValidatorRewardRecord {
                        rewards_earned: if old(self).validator_records@[k].rewards_earned
                            > penalty {
                            (old(self).validator_records@[k].rewards_earned - penalty) as u64
                        } else {
                            0
                        },
                        ..old(self).validator_records@[k]
                    },
                ),
    {
        match self.find(address.as_str()) {
            None => Err(BridgeError::ValidatorNotFound),
            Some(k) => {
                let mut record = self.validator_records[k].duplicate();
                record.rewards_earned = record.rewards_earned.saturating_sub(penalty);
                self.validator_records.set(k, record);
                assert(record_index(old(self).validator_records@, k as int, address@));
                Ok(())
            },
        }
    }

    pub fn adjust_reward_rate(&mut self, new_rate: u64) -> (r: Result<(), BridgeError>)
        ensures
            r is Ok,
            final(self).reward_rate == new_rate,
            final(self).validator_records == old(self).validator_records,
    {
        self.reward_rate = new_rate;
        Ok(())
    }

    /// Applies a governance change; only `reward_rate` is known here.
    pub fn apply_governance_adjustment(&mut self, param: &str, value: u64) -> (r: Result<
        (),
        BridgeError,
    >)
        ensures
            final(self).validator_records == old(self).validator_records,
            param@ == "reward_rate"@ ==> r is Ok && final(self).reward_rate == value,
            param@ != "reward_rate"@ ==> r == Err::<(), BridgeError>(BridgeError::UnknownParameter)
                && final(self).reward_rate == old(self).reward_rate,
    {
        if str_equal(param, "reward_rate") {
            self.adjust_reward_rate(value)
        } else {
            Err(BridgeError::UnknownParameter)
        }
    }

    /// The record of `address`, if it is registered.
    pub fn get_validator_rewards(&self, address: &str) -> (r: Option<ValidatorRewardRecord>)
        ensures
            r is None <==> !has_record(self.validator_records@, address@),
            r matches Some(rec) ==> exists|k: int|
                #[trigger] record_index(self.validator_records@, k, address@) && rec
                    == self.validator_records@[k],
    {
        match self.find(address) {
            None => None,
            Some(k) => Some(self.validator_records[k].duplicate()),
        }
    }
}

} // verus!
