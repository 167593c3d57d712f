use crate::encoding::{str_bytes, str_equal};
use crate::errors::BridgeError;
use crate::ledger::tree_proves;
use crate::merkle::MerkleTree;
use vstd::prelude::*;
use vstd::utf8::encode_utf8;

verus! {

/// A lock as recorded by the bridge; `timestamp` is in seconds since the Unix epoch.
#[derive(Debug)]
pub struct LockTransaction {
    pub tx_id: String,
    pub amount: u64,
    pub timestamp: i64,
    pub sender: String,
    pub receiver: String,
}

/// A burn as recorded by the bridge; `timestamp` is in seconds since the Unix epoch.
#[derive(Debug)]
pub struct BurnTransaction {
    pub tx_id: String,
    pub amount: u64,
    pub timestamp: i64,
    pub sender: String,
    pub receiver: String,
}

/// The recorded lock and burn transactions.
#[derive(Debug)]
pub struct BridgeOperations {
    pub lock_transactions: Vec<LockTransaction>,
    pub burn_transactions: Vec<BurnTransaction>,
}

/// Whether the tree proves the transaction id's bytes.
fn tree_holds(merkle_tree: &MerkleTree, tx_id: &str) -> (r: bool)
    requires
        merkle_tree.wf(),
    ensures
        r == tree_proves(*merkle_tree, encode_utf8(tx_id@)),
{
    let bytes = str_bytes(tx_id);
    let proof = merkle_tree.get_proof(&bytes);
    MerkleTree::verify_proof(proof, merkle_tree.get_root(), bytes)
}

impl BridgeOperations {
    pub fn new() -> (r: BridgeOperations)
        ensures
            r.lock_transactions@.len() == 0,
            r.burn_transactions@.len() == 0,
    {
        BridgeOperations { lock_transactions: Vec::new(), burn_transactions: Vec::new() }
    }

    pub fn lock_tokens(&mut self, tx: LockTransaction) -> (r: Result<(), BridgeError>)
        ensures
            r is Ok,
            final(self).lock_transactions@ == old(self).lock_transactions@.push(tx),
            final(self).burn_transactions == old(self).burn_transactions,
    {
        self.lock_transactions.push(tx);
        Ok(())
    }

    pub fn burn_tokens(&mut self, tx: BurnTransaction) -> (r: Result<(), BridgeError>)
        ensures
            r is Ok,
            final(self).burn_transactions@ == old(self).burn_transactions@.push(tx),
            final(self).lock_transactions == old(self).lock_transactions,
    {
        self.burn_transactions.push(tx);
        Ok(())
    }

    /// A recorded lock with this id whose Merkle proof leads to the tree's root.
    pub fn validate_lock_proof(&self, merkle_tree: &MerkleTree, tx_id: &str) -> (r: bool)
        requires
            merkle_tree.wf(),
        ensures
            r == ((exists|i: int|
                0 <= i < self.lock_transactions@.len() && #[trigger] self.lock_transactions@[i].tx_id@
                    == tx_id@) && tree_proves(*merkle_tree, encode_utf8(tx_id@))),
    {
        let mut i: usize = 0;
        while i < self.lock_transactions.len()
            invariant
                merkle_tree.wf(),
                i <= self.lock_transactions.len(),
                forall|j: int| 0 <= j < i ==> self.lock_transactions@[j].tx_id@ != tx_id@,
            decreases self.lock_transactions.len() - i,
        {
            if str_equal(self.lock_transactions[i].tx_id.as_str(), tx_id) {
                return tree_holds(merkle_tree, tx_id);
            }
            i = i + 1;
        }
        false
    }

    /// A recorded burn with this id whose Merkle proof leads to the tree's root.
    pub fn validate_burn_proof(&self, merkle_tree: &MerkleTree, tx_id: &str) -> (r: bool)
        requires
            merkle_tree.wf(),
        ensures
            r == ((exists|i: int|
                0 <= i < self.burn_transactions@.len() && #[trigger] self.burn_transactions@[i].tx_id@
                    == tx_id@) && tree_proves(*merkle_tree, encode_utf8(tx_id@))),
    {
        let mut i: usize = 0;
        while i < self.burn_transactions.len()
            invariant
                merkle_tree.wf(),
                i <= self.burn_transactions.len(),
                forall|j: int| 0 <= j < i ==> self.burn_transactions@[j].tx_id@ != tx_id@,
            decreases self.burn_transactions.len() - i,
        {
            if str_equal(self.burn_transactions[i].tx_id.as_str(), tx_id) {
                return tree_holds(merkle_tree, tx_id);
            }
            i = i + 1;
        }
        false
    }
}

} // verus!
