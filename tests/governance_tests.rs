use zook_network::anchoring::{L2StateSummary, StateAnchoring};
use zook_network::errors::BridgeError;
use zook_network::governance::{CrossLayerGovernance, GovernanceParameter};
use zook_network::governance_scalability::{GovernanceState, ParameterChange};
use zook_network::ledger::BridgeLedger;
use zook_network::merkle::MerkleTree;
use zook_network::policies::GovernanceValidatorPolicies;
use zook_network::registry::ValidatorRegistry;
use zook_network::sync::{CrossLayerSync, BTCZIntegration};
use zook_network::validator_rewards_tokenomics::ValidatorRewards;

#[test]
fn submitted_proposal_is_unapproved() {
    let mut gov = CrossLayerGovernance::new();
    let id = gov
        .submit_proposal("Adjust anchoring frequency".to_string(), "anchoring_frequency".to_string(), 600)
        .unwrap();
    assert_eq!(id, 1);
    let id2 = gov
        .submit_proposal("Increase staking rewards".to_string(), "reward_rate".to_string(), 20)
        .unwrap();
    assert_eq!(id2, 2);
    let list = gov.list_proposals();
    assert_eq!(list.len(), 2);
    assert!(!list[0].approved);
    assert_eq!(list[0].voting_power, 0);
    assert_eq!(list[1].value, 20);
}

#[test]
fn second_approval_is_rejected() {
    let mut gov = CrossLayerGovernance::new();
    let registry = ValidatorRegistry::new(10);
    let policies = GovernanceValidatorPolicies::new(10, 10, 100);
    let mut anchoring = StateAnchoring::new();
    let mut rewards = ValidatorRewards::new(5);
    let id = gov.submit_proposal("r".to_string(), "reward_rate".to_string(), 20).unwrap();
    assert_eq!(gov.approve_proposal(id, &registry, &policies, &mut anchoring, &mut rewards), Ok(()));
    assert_eq!(rewards.reward_rate, 20);
    assert_eq!(
        gov.approve_proposal(id, &registry, &policies, &mut anchoring, &mut rewards),
        Err(BridgeError::ProposalAlreadyApproved)
    );
    assert_eq!(
        gov.approve_proposal(9, &registry, &policies, &mut anchoring, &mut rewards),
        Err(BridgeError::ProposalNotFound)
    );
}

#[test]
fn unknown_parameter_leaves_proposal_unapproved() {
    let mut gov = CrossLayerGovernance::new();
    let registry = ValidatorRegistry::new(10);
    let policies = GovernanceValidatorPolicies::new(10, 10, 100);
    let mut anchoring = StateAnchoring::new();
    let mut rewards = ValidatorRewards::new(5);
    let id = gov
        .submit_proposal("Increase validator penalties".to_string(), "validator_penalty".to_string(), 50)
        .unwrap();
    assert_eq!(
        gov.approve_proposal(id, &registry, &policies, &mut anchoring, &mut rewards),
        Err(BridgeError::UnknownParameter)
    );
    assert!(!gov.list_proposals()[0].approved);
    assert_eq!(anchoring.get_anchoring_frequency(), Ok(60));
    assert_eq!(rewards.reward_rate, 5);
    let summary = L2StateSummary {
        block_height: 100,
        state_root: "sample_root".to_string(),
        total_transactions: 50,
        timestamp: 0,
        compliance: true,
    };
    assert_eq!(gov.validate_l1_proposal(&summary, id), Err(BridgeError::ProposalNotApproved));
    assert_eq!(gov.validate_l1_proposal(&summary, 7), Err(BridgeError::ProposalNotFound));
}

#[test]
fn parameter_names() {
    assert_eq!(GovernanceParameter::from_name("anchoring_frequency"), GovernanceParameter::AnchoringFrequency);
    assert_eq!(GovernanceParameter::from_name("reward_rate"), GovernanceParameter::RewardRate);
    assert_eq!(GovernanceParameter::from_name("minimum-stake"), GovernanceParameter::Unknown);
}

#[test]
fn end_to_end_scenario() {
    let mut registry = ValidatorRegistry::new(1_000_000);
    let policies = GovernanceValidatorPolicies::new(1_000_000, 100, 100);
    registry.register_node("v1".to_string(), 1_500_000).unwrap();
    let v1 = registry.get_node(&"v1".to_string()).unwrap();
    assert_eq!(policies.adjust_voting_power(&v1), 100);

    let mut gov = CrossLayerGovernance::new();
    let mut anchoring = StateAnchoring::new();
    let mut rewards = ValidatorRewards::new(10);
    let id = gov
        .submit_proposal("cadence".to_string(), "anchoring_frequency".to_string(), 120)
        .unwrap();
    gov.approve_proposal(id, &registry, &policies, &mut anchoring, &mut rewards).unwrap();
    assert_eq!(anchoring.get_anchoring_frequency(), Ok(120));
    assert_eq!(gov.list_proposals()[0].voting_power, 100);
    assert!(gov.list_proposals()[0].approved);

    let tree = MerkleTree::new(vec![b"known-tx".to_vec(), b"other-tx".to_vec()]);
    let mut ledger = BridgeLedger::new();
    ledger.lock_btcz("addrA".to_string(), 100).unwrap();
    assert_eq!(
        ledger.burn_zbtcz("addrA".to_string(), 150, "known-tx".to_string(), &tree),
        Err(BridgeError::InsufficientBalance)
    );
    let proof = ledger.burn_zbtcz("addrA".to_string(), 100, "known-tx".to_string(), &tree).unwrap();
    assert_eq!(ledger.get_locked_balance(&"addrA".to_string()), 0);

    let mut sync = CrossLayerSync::new(BTCZIntegration::new("http://localhost:18332".to_string()));
    let summary = CrossLayerSync::generate_anchor_summary(&tree, 1, 1, &registry, &policies);
    assert!(summary.compliance);
    let hex_proof: Vec<String> = proof.iter().map(hex::encode).collect();
    let payload = sync.anchor_state(summary, true, hex_proof.clone()).unwrap();
    assert_eq!(payload.merkle_proof, hex_proof);
    assert_eq!(sync.anchored_states.len(), 1);
}

#[test]
fn vote_and_execute() {
    let mut state = GovernanceState::new();
    let id = state
        .create_proposal(
            "creator".to_string(),
            "Increase minimum stake".to_string(),
            Some(ParameterChange { param: "minimum-stake".to_string(), value: 200000 }),
        )
        .unwrap();
    assert_eq!(id, 1);
    assert_eq!(state.execute_proposal(1), Err(BridgeError::ProposalDidNotPass));
    state.vote_on_proposal(1, true, 10).unwrap();
    state.vote_on_proposal(1, false, 4).unwrap();
    assert_eq!(state.proposals[0].votes_for, 10);
    assert_eq!(state.proposals[0].votes_against, 4);
    assert_eq!(state.execute_proposal(1), Ok(()));
    assert_eq!(state.execute_proposal(1), Err(BridgeError::ProposalAlreadyExecuted));
    assert_eq!(state.vote_on_proposal(1, true, 1), Err(BridgeError::ProposalAlreadyExecuted));
    assert_eq!(state.vote_on_proposal(2, true, 1), Err(BridgeError::ProposalNotFound));
    assert_eq!(state.create_proposal("c".to_string(), "d".to_string(), None), Ok(2));
}

#[test]
fn snapshot_sums_active_validators() {
    let mut registry = ValidatorRegistry::new(100);
    registry.register_node("a".to_string(), 100).unwrap();
    registry.register_node("b".to_string(), 100).unwrap();
    registry.register_node("c".to_string(), 100).unwrap();
    registry.update_activity_and_compliance(&"b".to_string(), 100, 50).unwrap();
    registry.deactivate_node(&"c".to_string()).unwrap();
    let policies = GovernanceValidatorPolicies::new(200, 0, 100);
    assert_eq!(CrossLayerGovernance::calculate_voting_power(&registry, &policies), 75);
}
