use zook_network::bridge_finalization::{BridgeFinalization, BurnRequest, LockRequest};
use zook_network::errors::BridgeError;
use zook_network::validator::{BurnRecord, ValidatorState};

#[test]
fn test_validate_burn() {
    let mut validator = ValidatorState::new();
    let record = BurnRecord {
        tx_id: "tx123".to_string(),
        amount: 100,
        timestamp: 1640995200,
    };

    // Validate first burn
    assert!(validator.validate_burn(&record).is_ok());

    // Attempt duplicate burn
    assert!(validator.validate_burn(&record).is_err());

    // Attempt invalid amount
    let invalid_record = BurnRecord {
        tx_id: "tx124".to_string(),
        amount: 0,
        timestamp: 1640995200,
    };
    assert!(validator.validate_burn(&invalid_record).is_err());
}

#[test]
fn test_validate_transaction() {
    let mut validator = ValidatorState::new();
    let tx_id = "tx123".to_string();

    assert_eq!(validator.validate_transaction(&tx_id), false);

    let record = BurnRecord {
        tx_id: tx_id.clone(),
        amount: 100,
        timestamp: 1640995200,
    };
    validator.validate_burn(&record).unwrap();

    assert_eq!(validator.validate_transaction(&tx_id), true);
}

#[test]
fn burn_errors_are_typed() {
    let mut validator = ValidatorState::new();
    let record = BurnRecord { tx_id: "a".to_string(), amount: 5, timestamp: 0 };
    assert_eq!(validator.validate_burn(&record), Ok(()));
    assert_eq!(validator.validate_burn(&record), Err(BridgeError::DuplicateTransaction));
    let zero = BurnRecord { tx_id: "b".to_string(), amount: 0, timestamp: 0 };
    assert_eq!(validator.validate_burn(&zero), Err(BridgeError::InvalidAmount));
    assert_eq!(validator.get_processed_burns(), vec!["a".to_string()]);
}

#[test]
fn finalization_needs_accepted_transaction() {
    let mut state = ValidatorState::new();
    state
        .validate_burn(&BurnRecord { tx_id: "tx-lock123".to_string(), amount: 100, timestamp: 0 })
        .unwrap();
    let fin = BridgeFinalization::new(state);
    let lock = LockRequest {
        tx_id: "tx-lock123".to_string(),
        amount: 100,
        from_address: "user1".to_string(),
        to_address: "bridge1".to_string(),
    };
    assert_eq!(fin.lock_btc(&lock), Ok(()));
    let unknown = BurnRequest {
        tx_id: "tx-burn123".to_string(),
        amount: 50,
        from_address: "user1".to_string(),
        to_address: "bridge1".to_string(),
    };
    assert_eq!(fin.burn_btc(&unknown), Err(BridgeError::UnknownTransaction));
    let zero = LockRequest { amount: 0, ..lock };
    assert_eq!(fin.lock_btc(&zero), Err(BridgeError::InvalidAmount));
    assert_eq!(fin.get_validator_state().processed_burns, vec!["tx-lock123".to_string()]);
}
