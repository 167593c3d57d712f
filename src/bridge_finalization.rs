use crate::errors::BridgeError;
use crate::validator::{contains_text, ValidatorState};
use vstd::prelude::*;

verus! {

/// A request to lock coin on the base layer.
#[derive(Debug)]
pub struct LockRequest {
    pub tx_id: String,
    pub amount: u64,
    pub from_address: String,
    pub to_address: String,
}

/// A request to burn wrapped tokens on the secondary layer.
#[derive(Debug)]
pub struct BurnRequest {
    pub tx_id: String,
    pub amount: u64,
    pub from_address: String,
    pub to_address: String,
}

/// Finalizes lock and burn requests against the accepted burns.
#[derive(Debug)]
pub struct BridgeFinalization {
    pub validator_state: ValidatorState,
}

impl BridgeFinalization {
    pub fn new(validator_state: ValidatorState) -> (r: BridgeFinalization)
        ensures
            r.validator_state == validator_state,
    {
        BridgeFinalization { validator_state }
    }

    /// A lock needs a positive amount and a transaction already accepted.
    pub fn lock_btc(&self, request: &LockRequest) -> (r: Result<(), BridgeError>)
        ensures
            request.amount == 0 ==> r == Err::<(), BridgeError>(BridgeError::InvalidAmount),
            request.amount > 0 && !contains_text(self.validator_state.processed_burns@, request.tx_id@)
                ==> r == Err::<(), BridgeError>(BridgeError::UnknownTransaction),
            request.amount > 0 && contains_text(self.validator_state.processed_burns@, request.tx_id@)
                ==> r is Ok,
    {
        if request.amount == 0 {
            return Err(BridgeError::InvalidAmount);
        }
        if !self.validator_state.validate_transaction(request.tx_id.as_str()) {
            return Err(BridgeError::UnknownTransaction);
        }
        Ok(())
    }

    /// A burn needs a positive amount and a transaction already accepted.
    pub fn burn_btc(&self, request: &BurnRequest) -> (r: Result<(), BridgeError>)
        ensures
            request.amount == 0 ==> r == Err::<(), BridgeError>(BridgeError::InvalidAmount),
            request.amount > 0 && !contains_text(self.validator_state.processed_burns@, request.tx_id@)
                ==> r == Err::<(), BridgeError>(BridgeError::UnknownTransaction),
            request.amount > 0 && contains_text(self.validator_state.processed_burns@, request.tx_id@)
                ==> r is Ok,
    {
        if request.amount == 0 {
            return Err(BridgeError::InvalidAmount);
        }
        if !self.validator_state.validate_transaction(request.tx_id.as_str()) {
            return Err(BridgeError::UnknownTransaction);
        }
        Ok(())
    }

    pub fn get_validator_state(&self) -> (r: ValidatorState)
        ensures
            r.processed_burns@ == self.validator_state.processed_burns@,
    {
        self.validator_state.duplicate()
    }
}

} // verus!
