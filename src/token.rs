use crate::errors::BridgeError;
use crate::ledger::{amount_of, balance_of, credit, debit, lemma_amount_within_sum, sum_amounts, unique_addresses, AccountBalance};
use vstd::prelude::*;

verus! {

/// The governance token: a supply and per-account balances.
#[derive(Debug)]
pub struct GovernanceToken {
    pub symbol: String,
    pub total_supply: u64,
    pub balances: Vec<AccountBalance>,
    pub rewards_schedule: u64,
}

impl GovernanceToken {
    /// Accounts hold no more than the supply in all.
    pub open spec fn wf(&self) -> bool {
        &&& unique_addresses(self.balances@)
        &&& sum_amounts(self.balances@) <= self.total_supply
    }

    pub open spec fn balance(&self, account: Seq<char>) -> nat {
        amount_of(self.balances@, account)
    }

    pub fn new(symbol: &str, initial_supply: u64) -> (r: GovernanceToken)
        ensures
            r.wf(),
            r.symbol@ == symbol@,
            r.total_supply == initial_supply,
            r.rewards_schedule == 0,
            forall|a: Seq<char>| r.balance(a) == 0,
    {
        let r = GovernanceToken {
            symbol: symbol.to_string(),
            total_supply: initial_supply,
            balances: Vec::new(),
            rewards_schedule: 0,
        };
        assert(r.balances@.len() == 0);
        r
    }

    /// Credits `amount` new tokens to `account`; the amount must be positive
    /// and the supply must stay within `u64`.
    pub fn mint(&mut self, account: &str, amount: u64)
        requires
            old(self).wf(),
            amount > 0,
            old(self).total_supply + amount <= u64::MAX,
        ensures
            final(self).wf(),
            final(self).total_supply == old(self).total_supply + amount,
            final(self).balance(account@) == old(self).balance(account@) + amount,
            forall|b: Seq<char>|
                b != account@ ==> #[trigger] final(self).balance(b) == old(self).balance(b),
    {
        let name = account.to_string();
        assert(name@ == account@);
        proof {
            lemma_amount_within_sum(self.balances@, account@);
        }
        credit(&mut self.balances, name, amount);
        self.total_supply = self.total_supply + amount;
    }

    /// Removes `amount` tokens from `account`: zero and more than the balance
    /// are rejected.
    pub fn burn(&mut self, account: &str, amount: u64) -> (r: Result<(), BridgeError>)
        requires
            old(self).wf(),
        ensures
            final(self).wf(),
            r == Err::<(), BridgeError>(BridgeError::InvalidAmount) <==> amount == 0,
            r == Err::<(), BridgeError>(BridgeError::InsufficientBalance) <==> amount > 0
                && old(self).balance(account@) < amount,
            r is Ok <==> amount > 0 && old(self).balance(account@) >= amount,
            r is Err ==> *final(self) == *old(self),
            r is Ok ==> final(self).total_supply == old(self).total_supply - amount
                && final(self).balance(account@) == old(self).balance(account@) - amount
                && forall|b: Seq<char>|
                b != account@ ==> #[trigger] final(self).balance(b) == old(self).balance(b),
    {
        if amount == 0 {
            return Err(BridgeError::InvalidAmount);
        }
        let name = account.to_string();
        assert(name@ == account@);
        let balance = balance_of(&self.balances, &name);
        if balance < amount {
            return Err(BridgeError::InsufficientBalance);
        }
        proof {
            lemma_amount_within_sum(self.balances@, account@);
        }
        debit(&mut self.balances, &name, amount);
        self.total_supply = self.total_supply - amount;
        Ok(())
    }

    pub fn get_balance(&self, account: &str) -> (r: u64)
        requires
            self.wf(),
        ensures
            r == self.balance(account@),
    {
        let name = account.to_string();
        assert(name@ == account@);
        balance_of(&self.balances, &name)
    }

    /// Succeeds when `account` holds at least `required_balance`.
    pub fn validate_governance_transaction(&self, account: &str, required_balance: u64) -> (r:
        Result<(), BridgeError>)
        requires
            self.wf(),
        ensures
            r is Ok <==> self.balance(account@) >= required_balance,
            r is Err ==> r == Err::<(), BridgeError>(BridgeError::InsufficientBalance),
    {
        if self.get_balance(account) < required_balance {
            return Err(BridgeError::InsufficientBalance);
        }
        Ok(())
    }
}

} // verus!
