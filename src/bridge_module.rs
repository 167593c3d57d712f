use crate::anchoring::{generate_state_summary, has_summary_root, L2StateSummary, StateAnchoring};
use crate::bridge_finalization::{BridgeFinalization, BurnRequest, LockRequest};
use crate::clock::unix_now;
use crate::encoding::str_bytes;
use crate::errors::BridgeError;
use crate::merkle::{bytes_views, MerkleTree};
use crate::policies::GovernanceValidatorPolicies;
use crate::registry::ValidatorRegistry;
use crate::sync::{all_active_compliant, BTCZIntegration, BurnEvent, CrossLayerSync, LockEvent};
use crate::validator::{contains_text, ValidatorState};
use crate::encoding::utf8_lossy;
use vstd::prelude::*;
use vstd::utf8::encode_utf8;

verus! {

/// The settlement pipeline: finalization of requests, the events they emit,
/// and the anchoring of summaries over the transaction tree.
#[derive(Debug)]
pub struct BridgeModule {
    pub merkle_tree: MerkleTree,
    pub finalization: BridgeFinalization,
    pub cross_layer_sync: CrossLayerSync,
    pub state_anchoring: StateAnchoring,
}

impl BridgeModule {
    /// Builds the tree over the transactions' bytes; there must be at least one.
    pub fn new(
        transactions: Vec<String>,
        validator_state: ValidatorState,
        btcz_integration: BTCZIntegration,
    ) -> (r: BridgeModule)
        requires
            transactions.len() > 0,
        ensures
            r.merkle_tree.wf(),
            r.merkle_tree.leaf_hashes() == transactions@.map_values(|t: String| encode_utf8(t@)),
            r.finalization.validator_state == validator_state,
            r.state_anchoring.anchored_states@.len() == 0,
            r.cross_layer_sync.lock_events@.len() == 0,
            r.cross_layer_sync.burn_events@.len() == 0,
    {
        let mut hashes: Vec<Vec<u8>> = Vec::new();
        let mut i: usize = 0;
        while i < transactions.len()
            invariant
                i <= transactions.len(),
                hashes.len() == i,
                forall|j: int| 0 <= j < i ==> #[trigger] hashes@[j]@ == encode_utf8(transactions@[j]@),
            decreases transactions.len() - i,
        {
            hashes.push(str_bytes(transactions[i].as_str()));
            i = i + 1;
        }
        assert(bytes_views(hashes@) =~= transactions@.map_values(|t: String| encode_utf8(t@)));
        BridgeModule {
            merkle_tree: MerkleTree::new(hashes),
            finalization: BridgeFinalization::new(validator_state),
            cross_layer_sync: CrossLayerSync::new(btcz_integration),
            state_anchoring: StateAnchoring::new(),
        }
    }

    /// Finalizes a lock and records its event.
    pub fn lock_btcz(&mut self, request: LockRequest) -> (r: Result<(), BridgeError>)
        ensures
            r is Ok <==> request.amount > 0 && contains_text(
                old(self).finalization.validator_state.processed_burns@,
                request.tx_id@,
            ),
            r is Err ==> final(self).cross_layer_sync.lock_events == old(self).cross_layer_sync.lock_events,
            r is Ok ==> final(self).cross_layer_sync.lock_events@.len() == old(
                self,
            ).cross_layer_sync.lock_events@.len() + 1 && final(self).cross_layer_sync.lock_events@.last().tx_id
                == request.tx_id && final(self).cross_layer_sync.lock_events@.last().amount
                == request.amount,
            final(self).finalization == old(self).finalization,
            final(self).state_anchoring == old(self).state_anchoring,
            final(self).merkle_tree == old(self).merkle_tree,
    {
        match self.finalization.lock_btc(&request) {
            Err(e) => Err(e),
            Ok(()) => {
                let event = LockEvent {
                    tx_id: request.tx_id,
                    amount: request.amount,
                    from_address: request.from_address,
                    to_address: request.to_address,
                    timestamp: unix_now(),
                };
                self.cross_layer_sync.record_lock_event(event)
            },
        }
    }

    /// Finalizes a burn and records its event.
    pub fn burn_zbtcz(&mut self, request: BurnRequest) -> (r: Result<(), BridgeError>)
        ensures
            r is Ok <==> request.amount > 0 && contains_text(
                old(self).finalization.validator_state.processed_burns@,
                request.tx_id@,
            ),
            r is Err ==> final(self).cross_layer_sync.burn_events == old(self).cross_layer_sync.burn_events,
            r is Ok ==> final(self).cross_layer_sync.burn_events@.len() == old(
                self,
            ).cross_layer_sync.burn_events@.len() + 1 && final(self).cross_layer_sync.burn_events@.last().tx_id
                == request.tx_id && final(self).cross_layer_sync.burn_events@.last().amount
                == request.amount,
            final(self).finalization == old(self).finalization,
            final(self).state_anchoring == old(self).state_anchoring,
            final(self).merkle_tree == old(self).merkle_tree,
    {
        match self.finalization.burn_btc(&request) {
            Err(e) => Err(e),
            Ok(()) => {
                let event = BurnEvent {
                    tx_id: request.tx_id,
                    amount: request.amount,
                    from_address: request.from_address,
                    to_address: request.to_address,
                    timestamp: unix_now(),
                };
                self.cross_layer_sync.record_burn_event(event)
            },
        }
    }

    /// Summarizes the tree, gates the summary on validator compliance, and
    /// appends it to the anchored log.
    pub fn anchor_l2_state(
        &mut self,
        block_height: u64,
        total_transactions: u64,
        validator_registry: &ValidatorRegistry,
        governance_policies: &GovernanceValidatorPolicies,
    ) -> (r: Result<L2StateSummary, BridgeError>)
        ensures
            r matches Ok(s) && (s.block_height == block_height && s.total_transactions
                == total_transactions && s.state_root@ == utf8_lossy(old(self).merkle_tree.root@)
                && s.compliance == all_active_compliant(
                validator_registry.nodes@,
                governance_policies.policy,
            ) && final(self).state_anchoring.anchored_states@ == old(
                self,
            ).state_anchoring.anchored_states@.push(s)),
            final(self).merkle_tree == old(self).merkle_tree,
            final(self).finalization == old(self).finalization,
    {
        let compliance = CrossLayerSync::check_validator_compliance(
            validator_registry,
            governance_policies,
        );
        let summary = generate_state_summary(
            &self.merkle_tree,
            block_height,
            total_transactions,
            compliance,
        );
        let _ = self.state_anchoring.anchor_state(summary.duplicate());
        Ok(summary)
    }

    /// Whether some anchored summary has this state root.
    pub fn validate_l2_state(&self, state_root: &str) -> (r: bool)
        ensures
            r == has_summary_root(self.state_anchoring.anchored_states@, state_root@),
    {
        self.state_anchoring.validate_anchored_state(state_root)
    }
}

} // verus!
