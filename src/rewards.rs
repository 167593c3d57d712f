use crate::clock::{non_negative, unix_now};
use vstd::prelude::*;

verus! {

/// Delay before the first distribution: 24 hours.
pub const ACTIVATION_DELAY_SECS: u64 = 86400;

/// Time between distributions: 8 hours.
pub const DISTRIBUTION_FREQUENCY_SECS: u64 = 28800;

/// Time an unstaking takes: 48 hours.
pub const UNSTAKING_PERIOD_SECS: u64 = 172800;

/// What a distribution request came to.
#[derive(Debug, Clone, Copy, PartialEq, Eq, Structural)]
pub enum RewardCycle {
    Distributed,
    NotYetDue,
    NotActivated,
}

/// The reward schedule; times are seconds since the Unix epoch.
#[derive(Debug)]
pub struct RewardManager {
    pub activation_delay: u64,
    pub distribution_frequency: u64,
    pub unstaking_period: u64,
    pub last_distribution: Option<u64>,
}

impl RewardManager {
    pub fn new() -> (r: RewardManager)
        ensures
            r.activation_delay == ACTIVATION_DELAY_SECS,
            r.distribution_frequency == DISTRIBUTION_FREQUENCY_SECS,
            r.unstaking_period == UNSTAKING_PERIOD_SECS,
            r.last_distribution is None,
    {
        RewardManager {
            activation_delay: ACTIVATION_DELAY_SECS,
            distribution_frequency: DISTRIBUTION_FREQUENCY_SECS,
            unstaking_period: UNSTAKING_PERIOD_SECS,
            last_distribution: None,
        }
    }

    /// Activates rewards from the current time; see `start_rewards_at`.
    pub fn start_rewards(&mut self)
        ensures
            final(self).last_distribution is Some,
            final(self).activation_delay == old(self).activation_delay,
            final(self).distribution_frequency == old(self).distribution_frequency,
            final(self).unstaking_period == old(self).unstaking_period,
    {
        let now = non_negative(unix_now());
        self.start_rewards_at(now);
    }

    /// Activates rewards: the schedule counts from `now` plus the activation delay.
    pub fn start_rewards_at(&mut self, now: u64)
        ensures
            final(self).last_distribution == Some(
                if now + old(self).activation_delay > u64::MAX {
                    u64::MAX
                } else {
                    (now + old(self).activation_delay) as u64
                },
            ),
            final(self).activation_delay == old(self).activation_delay,
            final(self).distribution_frequency == old(self).distribution_frequency,
            final(self).unstaking_period == old(self).unstaking_period,
    {
        let start = if self.activation_delay > u64::MAX - now {
            u64::MAX
        } else {
            now + self.activation_delay
        };
        self.last_distribution = Some(start);
    }

    /// Distributes at the current time; see `distribute_rewards_at`.
    pub fn distribute_rewards(&mut self) -> (r: RewardCycle)
        ensures
            old(self).last_distribution is None ==> r == RewardCycle::NotActivated,
            r != RewardCycle::Distributed ==> *final(self) == *old(self),
            r == RewardCycle::Distributed ==> final(self).last_distribution is Some && *final(self)
                == (RewardManager { last_distribution: final(self).last_distribution, ..*old(self) }),
    {
        let now = non_negative(unix_now());
        self.distribute_rewards_at(now)
    }

    /// A distribution is due once the frequency has passed since the last one.
    pub fn distribute_rewards_at(&mut self, now: u64) -> (r: RewardCycle)
        ensures
            old(self).last_distribution is None ==> r == RewardCycle::NotActivated && *final(self)
                == *old(self),
            old(self).last_distribution matches Some(last) ==> if now >= last && now - last
                >= old(self).distribution_frequency {
                r == RewardCycle::Distributed && *final(self) == (RewardManager {
                    last_distribution: Some(now),
                    ..*old(self)
                })
            } else {
                r == RewardCycle::NotYetDue && *final(self) == *old(self)
            },
    {
        match self.last_distribution {
            None => RewardCycle::NotActivated,
            Some(last) => {
                if now >= last && now - last >= self.distribution_frequency {
                    self.last_distribution = Some(now);
                    RewardCycle::Distributed
                } else {
                    RewardCycle::NotYetDue
                }
            },
        }
    }

    /// The time an unstaking started now takes to complete, in seconds.
    pub fn start_unstaking(&self) -> (r: u64)
        ensures
            r == self.unstaking_period,
    {
        self.unstaking_period
    }
}

} // verus!
