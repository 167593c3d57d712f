use crate::clock::unix_now;
use crate::encoding::{lossy_string, str_equal, utf8_lossy};
use crate::errors::BridgeError;
use crate::merkle::MerkleTree;
use vstd::prelude::*;

verus! {

/// Seconds between anchoring cycles until governance changes it.
pub const DEFAULT_ANCHORING_FREQUENCY: u64 = 60;

/// A summary of secondary-layer activity for one anchoring cycle.
/// `timestamp` is in seconds since the Unix epoch.
#[derive(Debug)]
pub struct L2StateSummary {
    pub block_height: u64,
    pub state_root: String,
    pub total_transactions: u64,
    pub timestamp: i64,
    pub compliance: bool,
}

impl L2StateSummary {
    pub fn duplicate(&self) -> (r: L2StateSummary)
        ensures
            r == *self,
    {
        L2StateSummary {
            block_height: self.block_height,
            state_root: self.state_root.clone(),
            total_transactions: self.total_transactions,
            timestamp: self.timestamp,
            compliance: self.compliance,
        }
    }
}

pub open spec fn has_summary_root(s: Seq<L2StateSummary>, root: Seq<char>) -> bool {
    exists|i: int| 0 <= i < s.len() && #[trigger] s[i].state_root@ == root
}

/// The append-only log of anchored summaries and the anchoring cadence.
#[derive(Debug)]
pub struct StateAnchoring {
    pub anchored_states: Vec<L2StateSummary>,
    pub anchoring_frequency: u64,
}

impl StateAnchoring {
    pub fn new() -> (r: StateAnchoring)
        ensures
            r.anchored_states@.len() == 0,
            r.anchoring_frequency == DEFAULT_ANCHORING_FREQUENCY,
    {
        StateAnchoring { anchored_states: Vec::new(), anchoring_frequency: DEFAULT_ANCHORING_FREQUENCY }
    }

    /// Appends a summary to the log.
    pub fn anchor_state(&mut self, summary: L2StateSummary) -> (r: Result<(), BridgeError>)
        ensures
            r is Ok,
            final(self).anchored_states@ == old(self).anchored_states@.push(summary),
            final(self).anchoring_frequency == old(self).anchoring_frequency,
    {
        self.anchored_states.push(summary);
        Ok(())
    }

    /// The most recent summary, if any.
    pub fn get_latest_anchored_state(&self) -> (r: Option<L2StateSummary>)
        ensures
            self.anchored_states@.len() == 0 ==> r is None,
            self.anchored_states@.len() > 0 ==> r == Some(self.anchored_states@.last()),
    {
        let n = self.anchored_states.len();
        if n == 0 {
            None
        } else {
            Some(self.anchored_states[n - 1].duplicate())
        }
    }

    /// Whether some anchored summary has this state root.
    pub fn validate_anchored_state(&self, state_root: &str) -> (r: bool)
        ensures
            r == has_summary_root(self.anchored_states@, state_root@),
    {
        let mut i: usize = 0;
        while i < self.anchored_states.len()
            invariant
                i <= self.anchored_states.len(),
                forall|j: int| 0 <= j < i ==> self.anchored_states@[j].state_root@ != state_root@,
            decreases self.anchored_states.len() - i,
        {
            if str_equal(self.anchored_states[i].state_root.as_str(), state_root) {
                return true;
            }
            i = i + 1;
        }
        false
    }

    pub fn update_frequency(&mut self, new_frequency: u64) -> (r: Result<(), BridgeError>)
        ensures
            r is Ok,
            final(self).anchoring_frequency == new_frequency,
            final(self).anchored_states == old(self).anchored_states,
    {
        self.anchoring_frequency = new_frequency;
        Ok(())
    }

    pub fn get_anchoring_frequency(&self) -> (r: Result<u64, BridgeError>)
        ensures
            r == Ok::<u64, BridgeError>(self.anchoring_frequency),
    {
        Ok(self.anchoring_frequency)
    }
}

/// A summary over the tree's root, stamped with the current time. The root's
/// bytes become text by lossy UTF-8 decoding.
pub fn generate_state_summary(
    merkle_tree: &MerkleTree,
    block_height: u64,
    total_transactions: u64,
    compliance: bool,
) -> (r: L2StateSummary)
    ensures
        r.block_height == block_height,
        r.total_transactions == total_transactions,
        r.compliance == compliance,
        r.state_root@ == utf8_lossy(merkle_tree.root@),
{
    let root = merkle_tree.get_root();
    L2StateSummary {
        block_height,
        state_root: lossy_string(root.as_slice()),
        total_transactions,
        timestamp: unix_now(),
        compliance,
    }
}

} // verus!
