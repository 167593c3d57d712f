use zook_network::errors::{BridgeError, CustomError};
use zook_network::event_sync::{EventRecord, EventSyncState};
use zook_network::finalize::{FinalizationRecord, FinalizedState};
use zook_network::models::Principal;
use zook_network::rewards::{RewardCycle, RewardManager};
use zook_network::security::RateLimiter;
use zook_network::token::GovernanceToken;
use zook_network::validator_rewards::ValidatorRewards;
use zook_network::validator_rewards_tokenomics::ValidatorRewards as RateRewards;
use zook_network::governance_module::GovernanceModule;
use zook_network::governance::{CrossLayerGovernance, GovernanceProposal};
use zook_network::registry::{ValidatorNode, ValidatorRegistry};

fn rec(h: u64, root: &str) -> FinalizationRecord {
    FinalizationRecord { block_height: h, merkle_root: root.to_string() }
}

#[test]
fn finalizations_are_unique_per_height() {
    let mut state = FinalizedState::new();
    assert_eq!(state.add_finalization(rec(1, "a")), Ok(()));
    assert_eq!(state.add_finalization(rec(1, "b")), Err(BridgeError::DuplicateFinalization));
    assert!(state.validate_merkle_root(1, "a"));
    assert!(!state.validate_merkle_root(1, "b"));
    state.synchronize_finalization(vec![rec(1, "x"), rec(2, "y"), rec(2, "z")]).unwrap();
    let all = state.get_finalizations();
    assert_eq!(all.len(), 2);
    assert_eq!(all[1].merkle_root, "y");
}

#[test]
fn events_are_kept_in_order() {
    let mut state = EventSyncState::new();
    state
        .add_event(EventRecord {
            event_type: "burn".to_string(),
            tx_id: "tx456".to_string(),
            amount: 50,
            merkle_root: Some("abc123".to_string()),
            block_height: Some(500),
        })
        .unwrap();
    let events = state.get_events();
    assert_eq!(events.len(), 1);
    assert_eq!(events[0].tx_id, "tx456");
    assert_eq!(events[0].block_height, Some(500));
}

#[test]
fn rate_limiter_windows() {
    let mut limiter = RateLimiter::new(2, 1000);
    assert_eq!(limiter.check_at("1.2.3.4", 0), Ok(()));
    assert_eq!(limiter.check_at("1.2.3.4", 10), Ok(()));
    assert_eq!(limiter.check_at("1.2.3.4", 20), Err(BridgeError::RateLimitExceeded));
    assert_eq!(limiter.check_at("5.6.7.8", 20), Ok(()));
    assert_eq!(limiter.check_at("1.2.3.4", 1001), Ok(()));
    assert_eq!(limiter.requests[0].count, 1);
    assert_eq!(limiter.check("9.9.9.9"), Ok(()));
}

#[test]
fn reward_schedule() {
    let mut m = RewardManager::new();
    assert_eq!(m.distribute_rewards_at(0), RewardCycle::NotActivated);
    m.start_rewards_at(1000);
    assert_eq!(m.last_distribution, Some(1000 + 86400));
    assert_eq!(m.distribute_rewards_at(1000 + 86400 + 100), RewardCycle::NotYetDue);
    assert_eq!(m.distribute_rewards_at(1000 + 86400 + 28800), RewardCycle::Distributed);
    assert_eq!(m.start_unstaking(), 172800);
}

#[test]
fn governance_token_balances() {
    let mut token = GovernanceToken::new("gBTCZ", 1000);
    token.mint("alice", 100);
    assert_eq!(token.get_balance("alice"), 100);
    assert_eq!(token.total_supply, 1100);
    assert_eq!(token.burn("alice", 0), Err(BridgeError::InvalidAmount));
    assert_eq!(token.burn("alice", 101), Err(BridgeError::InsufficientBalance));
    assert_eq!(token.burn("alice", 40), Ok(()));
    assert_eq!(token.get_balance("alice"), 60);
    assert_eq!(token.total_supply, 1060);
    assert!(token.validate_governance_transaction("alice", 60).is_ok());
    assert!(token.validate_governance_transaction("bob", 1).is_err());
    assert_eq!(token.symbol, "gBTCZ");
}

#[test]
fn stake_rewards_and_slashing() {
    let mut rewards = ValidatorRewards::new(10);
    rewards.register_validator("validator1".to_string(), 1_000_000).unwrap();
    assert_eq!(
        rewards.register_validator("validator1".to_string(), 1),
        Err(BridgeError::ValidatorAlreadyRegistered)
    );
    let d = rewards.distribute_rewards().unwrap();
    assert_eq!(d.validator_rewards.len(), 1);
    assert_eq!(d.validator_rewards[0].amount, 10);
    assert_eq!(
        rewards.slash_validator("validator1".to_string(), 2_000_000),
        Err(BridgeError::PenaltyExceedsStake)
    );
    rewards.slash_validator("validator1".to_string(), 500000).unwrap();
    assert_eq!(rewards.validators[0].locked_btcz, 500000);
    let latest = rewards.get_latest_compliance(&"validator1".to_string()).unwrap();
    assert!(!latest.is_compliant);
    assert_eq!(latest.compliance_reason, "Slashed for penalty: 500000");
    rewards.slash_validator("validator1".to_string(), 500000).unwrap();
    assert!(!rewards.validators[0].active);
    assert_eq!(rewards.get_compliance_logs(&"validator1".to_string()).unwrap().len(), 2);
    assert_eq!(rewards.distribute_rewards().unwrap().validator_rewards.len(), 0);
    assert_eq!(rewards.slash_validator("x".to_string(), 1), Err(BridgeError::ValidatorNotFound));
}

#[test]
fn flat_rewards_and_rate_changes() {
    let mut rewards = RateRewards::new(5);
    rewards.register_validator("v".to_string(), 0).unwrap();
    rewards.distribute_rewards(&[]).unwrap();
    rewards.distribute_rewards(&[]).unwrap();
    assert_eq!(rewards.get_validator_rewards("v").unwrap().rewards_earned, 10);
    rewards.slash_validator("v".to_string(), 25).unwrap();
    assert_eq!(rewards.get_validator_rewards("v").unwrap().rewards_earned, 0);
    assert_eq!(rewards.apply_governance_adjustment("reward_rate", 7), Ok(()));
    assert_eq!(rewards.reward_rate, 7);
    assert_eq!(
        rewards.apply_governance_adjustment("validator_rewards", 9),
        Err(BridgeError::UnknownParameter)
    );
    assert!(rewards.get_validator_rewards("w").is_none());
}

#[test]
fn small_values() {
    let p = Principal::new("ST123".to_string());
    assert_eq!(p.0, "ST123");
    let e = CustomError("boom".to_string());
    assert_eq!(e.message(), "boom");
}

#[test]
fn rate_limiter_check_counts_requests() {
    let mut limiter = RateLimiter::new(1, 60_000);
    assert_eq!(limiter.check("10.0.0.1"), Ok(()));
    assert_eq!(limiter.requests[0].count, 1);
    assert_eq!(limiter.check("10.0.0.1"), Err(BridgeError::RateLimitExceeded));
}

#[test]
fn governance_module_cycle() {
    let mut module = GovernanceModule::new(10);
    module.register_validator("validator1".to_string(), 1_000_000).unwrap();
    assert_eq!(
        module.register_validator("validator1".to_string(), 1),
        Err(BridgeError::ValidatorAlreadyRegistered)
    );
    module.distribute_rewards(&[]).unwrap();
    assert_eq!(module.rewards.validator_records[0].rewards_earned, 10);
    module.slash_validator("validator1".to_string(), 4).unwrap();
    assert_eq!(module.rewards.validator_records[0].rewards_earned, 6);
    assert_eq!(module.slash_validator("x".to_string(), 1), Err(BridgeError::ValidatorNotFound));
}

fn vnode(address: &str, stake: u64) -> ValidatorNode {
    ValidatorNode {
        address: address.to_string(),
        staked_btcz: stake,
        registered_at: 0,
        active: true,
        activity_percentage: 100,
        compliance_percentage: 100,
        voting_power: stake,
    }
}

#[test]
fn registry_from_stored_nodes_keeps_first_of_each_address() {
    let registry = ValidatorRegistry::from_nodes(10, vec![vnode("a", 10), vnode("b", 20), vnode("a", 30)]);
    let nodes = registry.list_nodes();
    assert_eq!(nodes.len(), 2);
    assert_eq!(registry.get_node(&"a".to_string()).unwrap().staked_btcz, 10);
}

fn proposal(id: u64) -> GovernanceProposal {
    GovernanceProposal {
        proposal_id: id,
        description: "d".to_string(),
        param: "reward_rate".to_string(),
        value: 1,
        approved: false,
        voting_power: 0,
    }
}

#[test]
fn proposals_from_storage_must_be_numbered() {
    assert!(CrossLayerGovernance::from_proposals(vec![proposal(1), proposal(2)]).is_some());
    assert!(CrossLayerGovernance::from_proposals(vec![proposal(1), proposal(3)]).is_none());
    let mut g = CrossLayerGovernance::from_proposals(vec![proposal(1)]).unwrap();
    assert_eq!(g.submit_proposal("e".to_string(), "x".to_string(), 2), Ok(2));
}
