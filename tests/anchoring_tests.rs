use zook_network::anchoring::{generate_state_summary, L2StateSummary, StateAnchoring};
use zook_network::bridge_module::BridgeModule;
use zook_network::bridge_finalization::LockRequest;
use zook_network::errors::BridgeError;
use zook_network::merkle::MerkleTree;
use zook_network::policies::GovernanceValidatorPolicies;
use zook_network::registry::ValidatorRegistry;
use zook_network::sync::{backoff_delay, next_push_step, BTCZIntegration, CrossLayerSync, LockEvent, PushStep};
use zook_network::validator::{BurnRecord, ValidatorState};

fn summary(root: &str) -> L2StateSummary {
    L2StateSummary {
        block_height: 100,
        state_root: root.to_string(),
        total_transactions: 50,
        timestamp: 1_700_000_000,
        compliance: true,
    }
}

#[test]
fn default_cadence_and_updates() {
    let mut anchoring = StateAnchoring::new();
    assert_eq!(anchoring.get_anchoring_frequency(), Ok(60));
    anchoring.update_frequency(120).unwrap();
    assert_eq!(anchoring.get_anchoring_frequency(), Ok(120));
}

#[test]
fn anchored_log_lookup() {
    let mut anchoring = StateAnchoring::new();
    assert!(anchoring.get_latest_anchored_state().is_none());
    anchoring.anchor_state(summary("r1")).unwrap();
    anchoring.anchor_state(summary("r2")).unwrap();
    assert!(anchoring.validate_anchored_state("r1"));
    assert!(!anchoring.validate_anchored_state("invalid_root"));
    assert_eq!(anchoring.get_latest_anchored_state().unwrap().state_root, "r2");
}

#[test]
fn summary_uses_tree_root() {
    let tree = MerkleTree::new(vec![b"root".to_vec()]);
    let s = generate_state_summary(&tree, 200, 100, false);
    assert_eq!(s.state_root, "root");
    assert_eq!((s.block_height, s.total_transactions, s.compliance), (200, 100, false));
}

#[test]
fn one_noncompliant_active_validator_fails_the_cycle() {
    let mut registry = ValidatorRegistry::new(100);
    registry.register_node("a".to_string(), 200).unwrap();
    registry.register_node("b".to_string(), 200).unwrap();
    let policies = GovernanceValidatorPolicies::new(100, 50, 100);
    assert!(CrossLayerSync::check_validator_compliance(&registry, &policies));
    registry.update_activity_and_compliance(&"b".to_string(), 10, 100).unwrap();
    assert!(!CrossLayerSync::check_validator_compliance(&registry, &policies));
    registry.deactivate_node(&"b".to_string()).unwrap();
    assert!(CrossLayerSync::check_validator_compliance(&registry, &policies));
}

#[test]
fn anchoring_records_before_push() {
    let mut sync = CrossLayerSync::new(BTCZIntegration::new("http://127.0.0.1:1".to_string()));
    assert!(sync.get_latest_state().is_none());
    let payload = sync.anchor_state(summary("abc"), false, vec!["proof-a".to_string()]).unwrap();
    assert_eq!(payload.block_height, 100);
    assert_eq!(payload.state_root, "abc");
    assert!(!payload.validator_compliance);
    assert!(sync.validate_state("abc"));
    assert!(!sync.validate_state("abd"));
    let latest = sync.get_latest_state().unwrap();
    assert_eq!(latest.merkle_proof, vec!["proof-a".to_string()]);
    assert_eq!(latest.timestamp, 1_700_000_000);
    sync.record_lock_event(LockEvent {
        tx_id: "lock123".to_string(),
        amount: 100,
        from_address: "user1".to_string(),
        to_address: "bridge1".to_string(),
        timestamp: 0,
    })
    .unwrap();
    assert_eq!(sync.lock_events.len(), 1);
}

#[test]
fn push_retries_with_doubling_backoff() {
    assert_eq!(next_push_step(1, true), PushStep::Delivered);
    assert_eq!(next_push_step(1, false), PushStep::RetryAfter(2));
    assert_eq!(next_push_step(2, false), PushStep::RetryAfter(4));
    assert_eq!(next_push_step(3, false), PushStep::GiveUpAfter(8));
    assert_eq!(next_push_step(3, true), PushStep::Delivered);
    assert_eq!(backoff_delay(1) + backoff_delay(2) + backoff_delay(3), 14);
}

#[test]
fn bridge_module_pipeline() {
    let mut state = ValidatorState::new();
    state.validate_burn(&BurnRecord { tx_id: "lock123".to_string(), amount: 100, timestamp: 0 }).unwrap();
    let mut bridge = BridgeModule::new(
        vec!["lock123".to_string(), "lock456".to_string()],
        state,
        BTCZIntegration::new("http://localhost:18332".to_string()),
    );
    let request = LockRequest {
        tx_id: "lock123".to_string(),
        amount: 100,
        from_address: "user1".to_string(),
        to_address: "bridge1".to_string(),
    };
    assert_eq!(bridge.lock_btcz(request), Ok(()));
    assert_eq!(bridge.cross_layer_sync.lock_events.len(), 1);
    let unknown = LockRequest {
        tx_id: "lock456".to_string(),
        amount: 100,
        from_address: "user1".to_string(),
        to_address: "bridge1".to_string(),
    };
    assert_eq!(bridge.lock_btcz(unknown), Err(BridgeError::UnknownTransaction));
    let registry = ValidatorRegistry::new(1);
    let policies = GovernanceValidatorPolicies::new(1, 1, 1);
    let s = bridge.anchor_l2_state(200, 100, &registry, &policies).unwrap();
    assert_eq!(s.block_height, 200);
    assert!(!s.state_root.is_empty());
    assert!(bridge.validate_l2_state(&s.state_root));
    assert!(!bridge.validate_l2_state("invalid_root"));
}
