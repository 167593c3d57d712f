use zook_network::errors::BridgeError;
use zook_network::ledger::BridgeLedger;
use zook_network::merkle::MerkleTree;

fn tree_of(ids: &[&str]) -> MerkleTree {
    MerkleTree::new(ids.iter().map(|s| s.as_bytes().to_vec()).collect())
}

#[test]
fn test_lock_tokens() {
    let mut ledger = BridgeLedger::new();

    assert!(ledger.lock_btcz("address1".to_string(), 100).is_ok());
    assert_eq!(ledger.get_locked_balance(&"address1".to_string()), 100);

    assert!(ledger.lock_btcz("address1".to_string(), 50).is_ok());
    assert_eq!(ledger.get_locked_balance(&"address1".to_string()), 150);

    assert!(ledger.lock_btcz("address1".to_string(), 0).is_err());
}

#[test]
fn test_burn_tokens() {
    let mut ledger = BridgeLedger::new();
    let tree = tree_of(&["burn-1", "burn-2", "burn-3"]);

    assert!(ledger.lock_btcz("address2".to_string(), 200).is_ok());

    assert!(ledger.burn_zbtcz("address2".to_string(), 100, "burn-1".to_string(), &tree).is_ok());
    assert_eq!(ledger.get_locked_balance(&"address2".to_string()), 100);
    assert_eq!(ledger.get_burned_balance(&"address2".to_string()), 100);

    assert!(ledger.burn_zbtcz("address2".to_string(), 150, "burn-2".to_string(), &tree).is_err());

    assert!(ledger.burn_zbtcz("address2".to_string(), 0, "burn-3".to_string(), &tree).is_err());
}

#[test]
fn test_audit_token_flow() {
    let mut ledger = BridgeLedger::new();
    let tree = tree_of(&["audit-1"]);

    assert!(ledger.lock_btcz("address3".to_string(), 300).is_ok());
    assert!(ledger.burn_zbtcz("address3".to_string(), 100, "audit-1".to_string(), &tree).is_ok());

    let (total_locked, total_burned) = ledger.audit_token_flow();
    assert_eq!(total_locked, 200);
    assert_eq!(total_burned, 100);
}

#[test]
fn lock_adds_exactly_the_amount() {
    let mut ledger = BridgeLedger::new();
    ledger.lock_btcz("a".to_string(), 7).unwrap();
    ledger.lock_btcz("b".to_string(), 3).unwrap();
    assert_eq!(ledger.get_locked_balance(&"a".to_string()), 7);
    assert_eq!(ledger.lock_btcz("a".to_string(), 0), Err(BridgeError::InvalidAmount));
    assert_eq!(ledger.get_locked_balance(&"a".to_string()), 7);
    assert_eq!(ledger.get_locked_balance(&"c".to_string()), 0);
    assert_eq!(ledger.audit_token_flow(), (10, 0));
}

#[test]
fn lock_past_u64_max_is_rejected() {
    let mut ledger = BridgeLedger::new();
    ledger.lock_btcz("a".to_string(), u64::MAX).unwrap();
    assert_eq!(ledger.lock_btcz("a".to_string(), 1), Err(BridgeError::Overflow));
    assert_eq!(ledger.get_locked_balance(&"a".to_string()), u64::MAX);
    assert_eq!(ledger.lock_btcz("b".to_string(), u64::MAX), Ok(()));
    assert_eq!(ledger.audit_token_flow(), (2 * u64::MAX as u128, 0));
}

#[test]
fn second_burn_with_same_id_is_rejected() {
    let mut ledger = BridgeLedger::new();
    let tree = tree_of(&["tx1", "tx2"]);
    ledger.lock_btcz("a".to_string(), 1000).unwrap();
    let proof = ledger.burn_zbtcz("a".to_string(), 10, "tx1".to_string(), &tree).unwrap();
    assert_eq!(proof, tree.get_proof(&b"tx1".to_vec()));
    assert_eq!(
        ledger.burn_zbtcz("a".to_string(), 10, "tx1".to_string(), &tree),
        Err(BridgeError::DuplicateTransaction)
    );
    assert_eq!(
        ledger.burn_zbtcz("a".to_string(), 5000, "tx1".to_string(), &tree),
        Err(BridgeError::DuplicateTransaction)
    );
    assert_eq!(ledger.get_locked_balance(&"a".to_string()), 990);
    assert!(ledger.validate_transaction(&"tx1".to_string()));
}

#[test]
fn burn_of_unknown_transaction_is_rejected() {
    let mut ledger = BridgeLedger::new();
    let tree = tree_of(&["tx1", "tx2"]);
    ledger.lock_btcz("a".to_string(), 100).unwrap();
    assert_eq!(
        ledger.burn_zbtcz("a".to_string(), 10, "tx9".to_string(), &tree),
        Err(BridgeError::InvalidMerkleProof)
    );
    assert_eq!(ledger.get_locked_balance(&"a".to_string()), 100);
    assert!(!ledger.validate_transaction(&"tx9".to_string()));
}

#[test]
fn burn_beyond_balance_is_rejected_and_id_not_consumed() {
    let mut ledger = BridgeLedger::new();
    let tree = tree_of(&["tx1"]);
    ledger.lock_btcz("a".to_string(), 100).unwrap();
    assert_eq!(
        ledger.burn_zbtcz("a".to_string(), 150, "tx1".to_string(), &tree),
        Err(BridgeError::InsufficientBalance)
    );
    assert!(ledger.burn_zbtcz("a".to_string(), 100, "tx1".to_string(), &tree).is_ok());
    assert_eq!(ledger.get_locked_balance(&"a".to_string()), 0);
    assert_eq!(ledger.get_burned_balance(&"a".to_string()), 100);
}
