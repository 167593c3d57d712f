use crate::registry::{has_node, node_at, registered_fresh, ValidatorNode, ValidatorRegistry};
use vstd::arithmetic::div_mod::{
    lemma_div_denominator,
    lemma_fundamental_div_mod,
    lemma_fundamental_div_mod_converse,
};
use vstd::prelude::*;

verus! {

/// The thresholds that governance sets for validators.
#[derive(Debug, Clone, Copy)]
pub struct ValidatorPolicy {
    pub minimum_stake: u64,
    /// Minimum activity percentage for a valid node.
    pub activity_threshold: u64,
    /// Compliance percentage at which a node reaches full voting power.
    pub compliance_threshold: u64,
}

impl Default for ValidatorPolicy {
    fn default() -> (r: ValidatorPolicy)
        ensures
            r.minimum_stake == 0,
            r.activity_threshold == 0,
            r.compliance_threshold == 0,
    {
        ValidatorPolicy { minimum_stake: 0, activity_threshold: 0, compliance_threshold: 0 }
    }
}

/// Whether a node counts as valid under `policy`: enough stake, active, and
/// at least the activity threshold.
pub open spec fn node_is_valid(node: ValidatorNode, policy: ValidatorPolicy) -> bool {
    &&& node.staked_btcz >= policy.minimum_stake
    &&& node.active
    &&& node.activity_percentage >= policy.activity_threshold
}

/// Stake factor `min(stake / minimum, 1)` as numerator over denominator; a
/// minimum of zero gives a factor of one.
pub open spec fn stake_numerator(node: ValidatorNode, policy: ValidatorPolicy) -> int {
    if policy.minimum_stake == 0 {
        1
    } else if node.staked_btcz < policy.minimum_stake {
        node.staked_btcz as int
    } else {
        policy.minimum_stake as int
    }
}

pub open spec fn stake_denominator(policy: ValidatorPolicy) -> int {
    if policy.minimum_stake == 0 {
        1
    } else {
        policy.minimum_stake as int
    }
}

/// Compliance factor `min(compliance / threshold, 1)`: zero compliance gives
/// zero, a threshold of zero otherwise gives one.
pub open spec fn compliance_numerator(node: ValidatorNode, policy: ValidatorPolicy) -> int {
    if node.compliance_percentage == 0 {
        0
    } else if policy.compliance_threshold == 0 {
        1
    } else if node.compliance_percentage < policy.compliance_threshold {
        node.compliance_percentage as int
    } else {
        policy.compliance_threshold as int
    }
}

pub open spec fn compliance_denominator(node: ValidatorNode, policy: ValidatorPolicy) -> int {
    if node.compliance_percentage == 0 || policy.compliance_threshold == 0 {
        1
    } else {
        policy.compliance_threshold as int
    }
}

/// Voting power: `stake_factor * compliance_factor * 100`, rounded down, and
/// zero for an inactive node.
pub open spec fn voting_power_of(node: ValidatorNode, policy: ValidatorPolicy) -> int {
    if !node.active {
        0
    } else {
        (100 * stake_numerator(node, policy) * compliance_numerator(node, policy)) / (
        stake_denominator(policy) * compliance_denominator(node, policy))
    }
}

/// `floor(100 * a * b / (m * t))` for `a <= m`, `b <= t`, without overflow.
fn scaled_product(a: u64, m: u64, b: u64, t: u64) -> (r: u64)
    requires
        0 < m,
        0 < t,
        a <= m,
        b <= t,
    ensures
        r == (100 * a * b) / (m * t),
        r <= 100,
{
    let x: u128 = 100 * (a as u128);
    let q: u128 = x / (m as u128);
    let rem: u128 = x % (m as u128);
    proof {
        lemma_fundamental_div_mod(x as int, m as int);
        assert(q <= 100) by (nonlinear_arith)
            requires
                x == m * q + rem,
                0 <= rem,
                x <= 100 * m,
                m > 0,
        ;
        assert((b as int) * (rem as int) < 0x1_0000_0000_0000_0000_0000_0000_0000_0000) by (
        nonlinear_arith)
            requires
                b <= 0xffff_ffff_ffff_ffff,
                rem < m,
                m <= 0xffff_ffff_ffff_ffff,
        ;
        assert((b as int) * (q as int) <= 100 * 0xffff_ffff_ffff_ffff) by (nonlinear_arith)
            requires
                b <= 0xffff_ffff_ffff_ffff,
                q <= 100,
        ;
    }
    let br: u128 = (b as u128) * rem;
    proof {
        let (mi, bi, ri, bri) = (m as int, b as int, rem as int, br as int);
        assert(bri <= bi * mi) by (nonlinear_arith)
            requires
                bri == bi * ri,
                ri < mi,
                0 <= bi,
        ;
        vstd::arithmetic::div_mod::lemma_div_is_ordered(bri, bi * mi, mi);
        vstd::arithmetic::div_mod::lemma_div_multiples_vanish(bi, mi);
        assert(bi * mi / mi == bi) by {
            assert(bi * mi == mi * bi) by (nonlinear_arith);
        }
    }
    let f: u128 = (b as u128) * q + br / (m as u128);
    proof {
        let (ai, mi, bi, ti) = (a as int, m as int, b as int, t as int);
        let (xi, qi, ri, bri) = (x as int, q as int, rem as int, br as int);
        lemma_fundamental_div_mod(bri, mi);
        let total = 100 * ai * bi;
        let k = bi * qi + bri / mi;
        assert(total == k * mi + bri % mi) by (nonlinear_arith)
            requires
                total == 100 * ai * bi,
                xi == 100 * ai,
                xi == mi * qi + ri,
                bri == bi * ri,
                bri == mi * (bri / mi) + bri % mi,
                k == bi * qi + bri / mi,
        ;
        lemma_fundamental_div_mod_converse(total, mi, k, bri % mi);
        lemma_div_denominator(total, mi, ti);
        assert(ai * bi <= mi * ti) by (nonlinear_arith)
            requires
                ai <= mi,
                bi <= ti,
                0 <= ai,
                0 <= bi,
        ;
        assert(total <= 100 * (mi * ti)) by (nonlinear_arith)
            requires
                total == 100 * ai * bi,
                ai * bi <= mi * ti,
        ;
        vstd::arithmetic::div_mod::lemma_div_is_ordered(total, 100 * (mi * ti), mi * ti);
        vstd::arithmetic::div_mod::lemma_div_multiples_vanish(100, mi * ti);
        assert(f as int == k);
    }
    (f / (t as u128)) as u64
}

/// The governance thresholds for validators.
#[derive(Debug)]
pub struct GovernanceValidatorPolicies {
    pub policy: ValidatorPolicy,
}

impl GovernanceValidatorPolicies {
    pub fn new(minimum_stake: u64, activity_threshold: u64, compliance_threshold: u64) -> (r:
        GovernanceValidatorPolicies)
        ensures
            r.policy.minimum_stake == minimum_stake,
            r.policy.activity_threshold == activity_threshold,
            r.policy.compliance_threshold == compliance_threshold,
    {
        GovernanceValidatorPolicies {
            policy: ValidatorPolicy { minimum_stake, activity_threshold, compliance_threshold },
        }
    }

    /// The current policy.
    pub fn get_policy(&self) -> (r: Option<ValidatorPolicy>)
        ensures
            r == Some(self.policy),
    {
        Some(self.policy)
    }

    pub fn update_policy(
        &mut self,
        minimum_stake: u64,
        activity_threshold: u64,
        compliance_threshold: u64,
    )
        ensures
            final(self).policy == (ValidatorPolicy {
                minimum_stake,
                activity_threshold,
                compliance_threshold,
            }),
    {
        self.policy = ValidatorPolicy { minimum_stake, activity_threshold, compliance_threshold };
    }

    /// Whether the validator at `node_id` is registered and valid under the policy.
    pub fn validate_node(&self, registry: &ValidatorRegistry, node_id: &String) -> (r: bool)
        requires
            registry.wf(),
        ensures
            r == exists|k: int|
                #[trigger] node_at(registry.nodes@, k, node_id@) && node_is_valid(
                    registry.nodes@[k],
                    self.policy,
                ),
            !has_node(registry.nodes@, node_id@) ==> !r,
    {
        match registry.get_node(node_id) {
            Ok(node) => {
                proof {
                    assert forall|k: int| #[trigger] node_at(registry.nodes@, k, node_id@) implies registry.nodes@[k]
                        == node by {
                        let j = choose|j: int|
                            #[trigger] node_at(registry.nodes@, j, node_id@) && node == registry.nodes@[j];
                        if j < k {
                            assert(registry.nodes@[j].address@ != registry.nodes@[k].address@);
                        } else if k < j {
                            assert(registry.nodes@[k].address@ != registry.nodes@[j].address@);
                        }
                    }
                }
                let policy = self.policy;
                node.staked_btcz >= policy.minimum_stake && node.active && node.activity_percentage
                    >= policy.activity_threshold
            },
            Err(_) => false,
        }
    }

    /// The node's voting power under the policy; see `voting_power_of`.
    pub fn adjust_voting_power(&self, node: &ValidatorNode) -> (r: u64)
        ensures
            r == voting_power_of(*node, self.policy),
            r <= 100,
    {
        if !node.active {
            return 0;
        }
        let policy = self.policy;
        let (a, m) = if policy.minimum_stake == 0 {
            (1u64, 1u64)
        } else if node.staked_btcz < policy.minimum_stake {
            (node.staked_btcz, policy.minimum_stake)
        } else {
            (policy.minimum_stake, policy.minimum_stake)
        };
        let (b, t) = if node.compliance_percentage == 0 {
            (0u64, 1u64)
        } else if policy.compliance_threshold == 0 {
            (1u64, 1u64)
        } else if node.compliance_percentage < policy.compliance_threshold {
            (node.compliance_percentage, policy.compliance_threshold)
        } else {
            (policy.compliance_threshold, policy.compliance_threshold)
        };
        scaled_product(a, m, b, t)
    }
}

/// A node that is active, meets the minimum stake, and is at or above a
/// positive compliance threshold has voting power exactly 100.
pub proof fn lemma_full_voting_power(node: ValidatorNode, policy: ValidatorPolicy)
    requires
        node.active,
        node.staked_btcz >= policy.minimum_stake,
        policy.compliance_threshold > 0,
        node.compliance_percentage >= policy.compliance_threshold,
    ensures
        voting_power_of(node, policy) == 100,
{
    let m = stake_denominator(policy);
    let t = compliance_denominator(node, policy);
    assert(stake_numerator(node, policy) == m);
    assert(compliance_numerator(node, policy) == t);
    assert((100 * m * t) / (m * t) == 100) by (nonlinear_arith)
        requires
            m > 0,
            t > 0,
    {
        assert(100 * m * t == 100 * (m * t));
        vstd::arithmetic::div_mod::lemma_div_multiples_vanish(100, m * t);
    }
}

/// A node as registration leaves it (active, 100% compliance) with at least
/// the policy's minimum stake has voting power exactly 100 whenever the
/// compliance threshold is positive and at most 100.
pub proof fn lemma_registered_node_full_power(
    node: ValidatorNode,
    address: Seq<char>,
    stake: u64,
    policy: ValidatorPolicy,
)
    requires
        registered_fresh(node, address, stake),
        stake >= policy.minimum_stake,
        0 < policy.compliance_threshold <= 100,
    ensures
        voting_power_of(node, policy) == 100,
{
    lemma_full_voting_power(node, policy);
}

/// Scales a node's voting power by its compliance percentage when that is
/// below `threshold`.
pub struct VotingPowerAdjustment;

impl VotingPowerAdjustment {
    pub fn adjust(node: &ValidatorNode, threshold: u64) -> (r: u64)
        requires
            node.compliance_percentage >= threshold || node.voting_power
                * node.compliance_percentage / 100 <= u64::MAX,
        ensures
            node.compliance_percentage >= threshold ==> r == node.voting_power,
            node.compliance_percentage < threshold ==> r == node.voting_power
                * node.compliance_percentage / 100,
    {
        if node.compliance_percentage >= threshold {
            node.voting_power
        } else {
            proof {
                assert((node.voting_power as int) * (node.compliance_percentage as int)
                    <= 0xffff_ffff_ffff_ffff * 0xffff_ffff_ffff_ffff) by (nonlinear_arith)
                    requires
                        node.voting_power <= 0xffff_ffff_ffff_ffff,
                        node.compliance_percentage <= 0xffff_ffff_ffff_ffff,
                ;
            }
            ((node.voting_power as u128) * (node.compliance_percentage as u128) / 100) as u64
        }
    }
}

} // verus!
