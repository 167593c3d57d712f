use crate::clock::unix_now;
use crate::errors::BridgeError;
use crate::ledger::AccountBalance;
use vstd::prelude::*;

verus! {

/// Coin locked per unit of reward rate: a validator earns `rate` for each
/// whole million locked.
pub const REWARD_UNIT: u64 = 1_000_000;

/// A validator known to the reward subsystem; times are seconds since the Unix epoch.
#[derive(Debug)]
pub struct Validator {
    pub address: String,
    pub locked_btcz: u64,
    pub last_reward_time: i64,
    pub active: bool,
}

/// One compliance observation about a validator.
#[derive(Debug)]
pub struct ValidatorComplianceLog {
    pub timestamp: i64,
    pub is_compliant: bool,
    pub compliance_reason: String,
}

impl ValidatorComplianceLog {
    pub fn duplicate(&self) -> (r: ValidatorComplianceLog)
        ensures
            r == *self,
    {
        ValidatorComplianceLog {
            timestamp: self.timestamp,
            is_compliant: self.is_compliant,
            compliance_reason: self.compliance_reason.clone(),
        }
    }
}

/// The compliance log of one address.
#[derive(Debug)]
pub struct ComplianceHistory {
    pub address: String,
    pub logs: Vec<ValidatorComplianceLog>,
}

/// The reward each active validator received in one cycle.
#[derive(Debug)]
pub struct RewardDistribution {
    pub validator_rewards: Vec<AccountBalance>,
}

pub open spec fn validator_at(s: Seq<Validator>, k: int, a: Seq<char>) -> bool {
    0 <= k < s.len() && s[k].address@ == a
}

pub open spec fn has_validator(s: Seq<Validator>, a: Seq<char>) -> bool {
    exists|k: int| #[trigger] validator_at(s, k, a)
}

pub open spec fn history_at(s: Seq<ComplianceHistory>, k: int, a: Seq<char>) -> bool {
    0 <= k < s.len() && s[k].address@ == a
}

pub open spec fn has_history(s: Seq<ComplianceHistory>, a: Seq<char>) -> bool {
    exists|k: int| #[trigger] history_at(s, k, a)
}

/// A validator's reward for one cycle, capped at `u64::MAX`.
pub open spec fn cycle_reward(locked: u64, rate: u64) -> u64 {
    let r = (locked / REWARD_UNIT) * rate;
    if r > u64::MAX {
        u64::MAX
    } else {
        r as u64
    }
}

/// What one cycle gives: an entry for each active validator, in order.
pub open spec fn cycle_rewards(s: Seq<Validator>, rate: u64) -> Seq<AccountBalance>
    decreases s.len(),
{
    if s.len() == 0 {
        Seq::empty()
    } else {
        let before = cycle_rewards(s.drop_last(), rate);
        if s.last().active {
            before.push(
                AccountBalance {
                    address: s.last().address,
                    amount: cycle_reward(s.last().locked_btcz, rate),
                },
            )
        } else {
            before
        }
    }
}

fn copy_logs(v: &Vec<ValidatorComplianceLog>) -> (r: Vec<ValidatorComplianceLog>)
    ensures
        r@ == v@,
{
    let mut out: Vec<ValidatorComplianceLog> = Vec::new();
    let mut i: usize = 0;
    while i < v.len()
        invariant
            i <= v.len(),
            out@ == v@.subrange(0, i as int),
        decreases v.len() - i,
    {
        out.push(v[i].duplicate());
        i = i + 1;
        assert(out@ =~= v@.subrange(0, i as int));
    }
    assert(out@ =~= v@);
    out
}

/// Stake-proportional rewards, slashing, and a compliance log per validator.
#[derive(Debug)]
pub struct ValidatorRewards {
    pub validators: Vec<Validator>,
    pub compliance_logs: Vec<ComplianceHistory>,
    pub reward_rate: u64,
}

impl ValidatorRewards {
    /// Each address is registered at most once.
    pub open spec fn wf(&self) -> bool {
        forall|i: int, j: int|
            0 <= i < j < self.validators@.len() ==> #[trigger] self.validators@[i].address@
                != #[trigger] self.validators@[j].address@
    }

    pub fn new(reward_rate: u64) -> (r: ValidatorRewards)
        ensures
            r.wf(),
            r.validators@.len() == 0,
            r.compliance_logs@.len() == 0,
            r.reward_rate == reward_rate,
    {
        ValidatorRewards { validators: Vec::new(), compliance_logs: Vec::new(), reward_rate }
    }

    fn find_validator(&self, address: &String) -> (r: Option<usize>)
        ensures
            r matches Some(k) ==> validator_at(self.validators@, k as int, address@),
            r is None ==> !has_validator(self.validators@, address@),
    {
        let mut i: usize = 0;
        while i < self.validators.len()
            invariant
                i <= self.validators.len(),
                forall|j: int| 0 <= j < i ==> self.validators@[j].address@ != address@,
            decreases self.validators.len() - i,
        {
            if self.validators[i].address == *address {
                return Some(i);
            }
            i = i + 1;
        }
        assert(!has_validator(self.validators@, address@)) by {
            if has_validator(self.validators@, address@) {
                let k = choose|k: int| #[trigger] validator_at(self.validators@, k, address@);
                assert(self.validators@[k].address@ != address@);
            }
        }
        None
    }

    fn find_history(&self, address: &String) -> (r: Option<usize>)
        ensures
            r matches Some(k) ==> history_at(self.compliance_logs@, k as int, address@),
            r is None ==> !has_history(self.compliance_logs@, address@),
    {
        let mut i: usize = 0;
        while i < self.compliance_logs.len()
            invariant
                i <= self.compliance_logs.len(),
                forall|j: int| 0 <= j < i ==> self.compliance_logs@[j].address@ != address@,
            decreases self.compliance_logs.len() - i,
        {
            if self.compliance_logs[i].address == *address {
                return Some(i);
            }
            i = i + 1;
        }
        assert(!has_history(self.compliance_logs@, address@)) by {
            if has_history(self.compliance_logs@, address@) {
                let k = choose|k: int| #[trigger] history_at(self.compliance_logs@, k, address@);
                assert(self.compliance_logs@[k].address@ != address@);
            }
        }
        None
    }

    /// Adds an active validator with an empty compliance log; an address
    /// already present is rejected.
    pub fn register_validator(&mut self, address: String, locked_btcz: u64) -> (r: Result<
        (),
        BridgeError,
    >)
        requires
            old(self).wf(),
        ensures
            final(self).wf(),
            final(self).reward_rate == old(self).reward_rate,
            r is Err <==> has_validator(old(self).validators@, address@),
            r is Err ==> r == Err::<(), BridgeError>(BridgeError::ValidatorAlreadyRegistered)
                && *final(self) == *old(self),
            r is Ok ==> final(self).validators@.drop_last() == old(self).validators@
                && final(self).validators@.len() == old(self).validators@.len() + 1 && {
                let v = final(self).validators@.last();
                &&& v.address == address
                &&& v.locked_btcz == locked_btcz
                &&& v.active
            } && has_history(final(self).compliance_logs@, address@),
    {
        if self.find_validator(&address).is_some() {
            return Err(BridgeError::ValidatorAlreadyRegistered);
        }
        let validator = Validator {
            address: address.clone(),
            locked_btcz,
            last_reward_time: unix_now(),
            active: true,
        };
        self.validators.push(validator);
        assert(self.validators@.drop_last() =~= old(self).validators@);
        assert forall|i: int, j: int| 0 <= i < j < self.validators@.len() implies #[trigger] self.validators@[i].address@
            != #[trigger] self.validators@[j].address@ by {
            if j == old(self).validators@.len() {
                assert(!validator_at(old(self).validators@, i, address@));
            } else {
                assert(old(self).validators@[i].address@ != old(self).validators@[j].address@);
            }
        }
        let fresh = ComplianceHistory { address: address.clone(), logs: Vec::new() };
        match self.find_history(&address) {
            Some(k) => {
                self.compliance_logs.set(k, fresh);
                assert(history_at(self.compliance_logs@, k as int, address@));
            },
            None => {
                self.compliance_logs.push(fresh);
                assert(history_at(
                    self.compliance_logs@,
                    self.compliance_logs@.len() - 1,
                    address@,
                ));
            },
        }
        Ok(())
    }

    /// Gives each active validator `locked / 1_000_000 * rate` (capped at
    /// `u64::MAX`) and stamps it with the current time.
    pub fn distribute_rewards(&mut self) -> (r: Result<RewardDistribution, BridgeError>)
        requires
            old(self).wf(),
        ensures
            final(self).wf(),
            final(self).validators@.len() == old(self).validators@.len(),
            final(self).compliance_logs == old(self).compliance_logs,
            final(self).reward_rate == old(self).reward_rate,
            r matches Ok(d) && d.validator_rewards@ == cycle_rewards(
                old(self).validators@,
                old(self).reward_rate,
            ),
    {
        let now = unix_now();
        let rate = self.reward_rate;
        let mut given: Vec<AccountBalance> = Vec::new();
        let mut i: usize = 0;
        while i < self.validators.len()
            invariant
                rate == self.reward_rate,
                self.reward_rate == old(self).reward_rate,
                self.compliance_logs == old(self).compliance_logs,
                i <= self.validators.len(),
                self.validators@.len() == old(self).validators@.len(),
                forall|j: int|
                    #![trigger self.validators@[j]]
                    0 <= j < self.validators@.len() ==> self.validators@[j].address == old(
                        self,
                    ).validators@[j].address && self.validators@[j].locked_btcz == old(
                        self,
                    ).validators@[j].locked_btcz && self.validators@[j].active == old(
                        self,
                    ).validators@[j].active,
                given@ == cycle_rewards(old(self).validators@.subrange(0, i as int), rate),
            decreases self.validators.len() - i,
        {
            assert(old(self).validators@.subrange(0, i + 1).drop_last() =~= old(
                self,
            ).validators@.subrange(0, i as int));
            if self.validators[i].active {
                let units = self.validators[i].locked_btcz / REWARD_UNIT;
                let reward = units.checked_mul(rate);
                let amount = match reward {
                    Some(v) => v,
                    None => u64::MAX,
                };
                assert(amount == cycle_reward(old(self).validators@[i as int].locked_btcz, rate));
                given.push(AccountBalance { address: self.validators[i].address.clone(), amount });
                let v = &self.validators[i];
                let stamped = Validator {
                    address: v.address.clone(),
                    locked_btcz: v.locked_btcz,
                    last_reward_time: now,
                    active: v.active,
                };
                self.validators.set(i, stamped);
            }
            i = i + 1;
        }
        assert(old(self).validators@.subrange(0, i as int) =~= old(self).validators@);
        assert forall|a: int, b: int| 0 <= a < b < self.validators@.len() implies #[trigger] self.validators@[a].address@
            != #[trigger] self.validators@[b].address@ by {
            assert(old(self).validators@[a].address@ != old(self).validators@[b].address@);
        }
        Ok(RewardDistribution { validator_rewards: given })
    }

    /// Takes `penalty` from the validator's locked coin (more than it holds is
    /// rejected), deactivates it at zero, and logs a non-compliance entry.
    pub fn slash_validator(&mut self, address: String, penalty: u64) -> (r: Result<(), BridgeError>)
        requires
            old(self).wf(),
        ensures
            final(self).wf(),
            final(self).reward_rate == old(self).reward_rate,
            r == Err::<(), BridgeError>(BridgeError::ValidatorNotFound) <==> !has_validator(
                old(self).validators@,
                address@,
            ),
            r == Err::<(), BridgeError>(BridgeError::PenaltyExceedsStake) <==> exists|k: int|
                #[trigger] validator_at(old(self).validators@, k, address@) && old(
                    self,
                ).validators@[k].locked_btcz < penalty,
            r is Ok <==> exists|k: int|
                #[trigger] validator_at(old(self).validators@, k, address@) && old(
                    self,
                ).validators@[k].locked_btcz >= penalty,
            r is Err ==> *final(self) == *old(self),
            r is Ok ==> exists|k: int|
                #[trigger] validator_at(old(self).validators@, k, address@) && {
                    let v = old(self).validators@[k];
                    let left = (v.locked_btcz - penalty) as u64;
                    final(self).validators@ == old(self).validators@.update(
                        k,
                        Validator { locked_btcz: left, active: v.active && left != 0, ..v },
                    )
                },
            r is Ok ==> has_history(final(self).compliance_logs@, address@),
    {
        let k = match self.find_validator(&address) {
            None => {
                return Err(BridgeError::ValidatorNotFound);
            },
            Some(k) => k,
        };
        proof {
            assert forall|j: int| #[trigger] validator_at(old(self).validators@, j, address@) implies j
                == k by {
                if j < k as int {
                    assert(old(self).validators@[j].address@ != old(self).validators@[k as int].address@);
                } else if j > k as int {
                    assert(old(self).validators@[k as int].address@ != old(self).validators@[j].address@);
                }
            }
        }
        if self.validators[k].locked_btcz < penalty {
            return Err(BridgeError::PenaltyExceedsStake);
        }
        let v = &self.validators[k];
        let left = v.locked_btcz - penalty;
        let updated = Validator {
            address: v.address.clone(),
            locked_btcz: left,
            last_reward_time: v.last_reward_time,
            active: v.active && left != 0,
        };
        self.validators.set(k, updated);
        assert(validator_at(old(self).validators@, k as int, address@));
        assert forall|a: int, b: int| 0 <= a < b < self.validators@.len() implies #[trigger] self.validators@[a].address@
            != #[trigger] self.validators@[b].address@ by {
            assert(old(self).validators@[a].address@ != old(self).validators@[b].address@);
        }
        let mut reason = "Slashed for penalty: ".to_string();
        reason.append(penalty.to_string().as_str());
        self.log_compliance(address, false, reason);
        Ok(())
    }

    /// Appends an entry, stamped with the current time, to the log of `address`.
    pub fn log_compliance(&mut self, address: String, is_compliant: bool, reason: String)
        ensures
            final(self).validators == old(self).validators,
            final(self).reward_rate == old(self).reward_rate,
            exists|k: int|
                #[trigger] history_at(final(self).compliance_logs@, k, address@) && {
                    let logs = final(self).compliance_logs@[k].logs@;
                    &&& logs.len() > 0
                    &&& logs.last().is_compliant == is_compliant
                    &&& logs.last().compliance_reason == reason
                },
    {
        let entry = ValidatorComplianceLog {
            timestamp: unix_now(),
            is_compliant,
            compliance_reason: reason,
        };
        match self.find_history(&address) {
            Some(k) => {
                let mut logs = copy_logs(&self.compliance_logs[k].logs);
                logs.push(entry);
                self.compliance_logs.set(k, ComplianceHistory { address: address.clone(), logs });
                assert(history_at(self.compliance_logs@, k as int, address@));
            },
            None => {
                let mut logs: Vec<ValidatorComplianceLog> = Vec::new();
                logs.push(entry);
                self.compliance_logs.push(ComplianceHistory { address: address.clone(), logs });
                assert(history_at(
                    self.compliance_logs@,
                    self.compliance_logs@.len() - 1,
                    address@,
                ));
            },
        }
    }

    /// The first log kept for `address`, if any.
    pub fn get_compliance_logs(&self, address: &String) -> (r: Option<Vec<ValidatorComplianceLog>>)
        ensures
            r is None <==> !has_history(self.compliance_logs@, address@),
            r matches Some(logs) ==> exists|k: int|
                #[trigger] history_at(self.compliance_logs@, k, address@) && logs@
                    == self.compliance_logs@[k].logs@,
    {
        match self.find_history(address) {
            None => None,
            Some(k) => Some(copy_logs(&self.compliance_logs[k].logs)),
        }
    }

    /// The newest entry in the log of `address`, if any.
    pub fn get_latest_compliance(&self, address: &String) -> (r: Option<ValidatorComplianceLog>)
        ensures
            !has_history(self.compliance_logs@, address@) ==> r is None,
            r matches Some(entry) ==> exists|k: int|
                #[trigger] history_at(self.compliance_logs@, k, address@)
                    && self.compliance_logs@[k].logs@.len() > 0 && entry
                    == self.compliance_logs@[k].logs@.last(),
    {
        match self.find_history(address) {
            None => None,
            Some(k) => {
                let n = self.compliance_logs[k].logs.len();
                if n == 0 {
                    None
                } else {
                    Some(self.compliance_logs[k].logs[n - 1].duplicate())
                }
            },
        }
    }
}

} // verus!
