use zook_network::errors::BridgeError;
use zook_network::policies::{GovernanceValidatorPolicies, VotingPowerAdjustment};
use zook_network::registry::{ValidatorNode, ValidatorRegistry};

fn node(stake: u64, compliance: u64, active: bool) -> ValidatorNode {
    ValidatorNode {
        address: "n".to_string(),
        staked_btcz: stake,
        registered_at: 0,
        active,
        activity_percentage: 100,
        compliance_percentage: compliance,
        voting_power: stake,
    }
}

#[test]
fn stake_below_minimum_is_rejected() {
    let mut registry = ValidatorRegistry::new(1_000_000);
    assert_eq!(
        registry.register_node("v1".to_string(), 999_999),
        Err(BridgeError::InsufficientStake)
    );
    assert!(registry.list_nodes().is_empty());
}

#[test]
fn registration_defaults() {
    let mut registry = ValidatorRegistry::new(1_000_000);
    registry.register_node_at("validator1".to_string(), 1_500_000, 42).unwrap();
    let n = registry.get_node(&"validator1".to_string()).unwrap();
    assert!(n.active);
    assert_eq!(n.activity_percentage, 100);
    assert_eq!(n.compliance_percentage, 100);
    assert_eq!(n.voting_power, 1_500_000);
    assert_eq!(n.registered_at, 42);
    assert_eq!(
        registry.register_node("validator1".to_string(), 2_000_000),
        Err(BridgeError::ValidatorAlreadyRegistered)
    );
    assert_eq!(registry.list_nodes().len(), 1);
}

#[test]
fn full_voting_power_at_threshold() {
    let policies = GovernanceValidatorPolicies::new(1_000_000, 10, 60);
    assert_eq!(policies.adjust_voting_power(&node(1_000_000, 60, true)), 100);
    assert_eq!(policies.adjust_voting_power(&node(5_000_000, 100, true)), 100);
}

#[test]
fn voting_power_is_scaled_and_capped() {
    let policies = GovernanceValidatorPolicies::new(1_000_000, 10, 100);
    assert_eq!(policies.adjust_voting_power(&node(500_000, 50, true)), 25);
    assert_eq!(policies.adjust_voting_power(&node(1_000_000, 33, true)), 33);
    assert_eq!(policies.adjust_voting_power(&node(333_333, 100, true)), 33);
    assert_eq!(policies.adjust_voting_power(&node(2_000_000, 0, true)), 0);
    assert_eq!(policies.adjust_voting_power(&node(2_000_000, 100, false)), 0);
    assert_eq!(policies.adjust_voting_power(&node(u64::MAX, u64::MAX, true)), 100);
}

#[test]
fn zero_thresholds_count_as_met() {
    let policies = GovernanceValidatorPolicies::new(0, 0, 0);
    assert_eq!(policies.adjust_voting_power(&node(0, 1, true)), 100);
    assert_eq!(policies.adjust_voting_power(&node(0, 0, true)), 0);
}

#[test]
fn node_validity_follows_policy() {
    let mut registry = ValidatorRegistry::new(100);
    registry.register_node("a".to_string(), 150).unwrap();
    registry.register_node("b".to_string(), 100).unwrap();
    registry.update_activity_and_compliance(&"b".to_string(), 5, 80).unwrap();
    let mut policies = GovernanceValidatorPolicies::new(120, 10, 50);
    assert!(policies.validate_node(&registry, &"a".to_string()));
    assert!(!policies.validate_node(&registry, &"b".to_string()));
    assert!(!policies.validate_node(&registry, &"zz".to_string()));
    registry.deactivate_node(&"a".to_string()).unwrap();
    assert!(!policies.validate_node(&registry, &"a".to_string()));
    policies.update_policy(1, 1, 1);
    assert_eq!(policies.get_policy().unwrap().minimum_stake, 1);
}

#[test]
fn stake_updates_add_to_power() {
    let mut registry = ValidatorRegistry::new(10);
    registry.register_node("a".to_string(), 10).unwrap();
    registry.update_stake(&"a".to_string(), 5).unwrap();
    let n = registry.get_node(&"a".to_string()).unwrap();
    assert_eq!((n.staked_btcz, n.voting_power), (15, 15));
    assert_eq!(registry.update_stake(&"a".to_string(), u64::MAX), Err(BridgeError::Overflow));
    assert_eq!(registry.update_stake(&"x".to_string(), 1), Err(BridgeError::ValidatorNotFound));
    assert_eq!(registry.deactivate_node(&"x".to_string()), Err(BridgeError::ValidatorNotFound));
    assert!(registry.get_node(&"x".to_string()).is_err());
}

#[test]
fn explicit_adjustment_scales_below_threshold() {
    let mut n = node(1000, 50, true);
    n.voting_power = 1000;
    assert_eq!(VotingPowerAdjustment::adjust(&n, 40), 1000);
    assert_eq!(VotingPowerAdjustment::adjust(&n, 60), 500);
}
