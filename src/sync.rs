use crate::anchoring::L2StateSummary;
use crate::clock::unix_now;
use crate::encoding::{hex_decode, hex_decoded, hex_encode, hex_of, is_hex_text, lossy_string, str_bytes, str_equal, utf8_lossy};
use crate::errors::BridgeError;
use crate::merkle::{bytes_views, fold_proof, proof_for, MerkleTree};
use crate::policies::{node_is_valid, GovernanceValidatorPolicies, ValidatorPolicy};
use crate::registry::{ValidatorNode, ValidatorRegistry};
use vstd::prelude::*;
use vstd::utf8::encode_utf8;

verus! {

/// Attempts at pushing one anchor to the base layer.
pub const MAX_PUSH_ATTEMPTS: u32 = 3;

/// Backoff after the `attempt`-th failed push: 2, 4, 8, ... seconds.
pub open spec fn backoff_secs(attempt: nat) -> nat
    decreases attempt,
{
    if attempt == 0 {
        1
    } else {
        2 * backoff_secs((attempt - 1) as nat)
    }
}

/// What to do after one push attempt.
#[derive(Debug, Clone, Copy, PartialEq, Eq, Structural)]
pub enum PushStep {
    /// The base layer accepted the anchor.
    Delivered,
    /// Wait this many seconds, then try again.
    RetryAfter(u64),
    /// Wait this many seconds, then report the failure; the local record stays.
    GiveUpAfter(u64),
}

/// Seconds to wait after the `attempt`-th failed push.
pub fn backoff_delay(attempt: u32) -> (r: u64)
    requires
        attempt <= MAX_PUSH_ATTEMPTS,
    ensures
        r == backoff_secs(attempt as nat),
{
    let mut delay: u64 = 1;
    let mut k: u32 = 0;
    while k < attempt
        invariant
            k <= attempt <= MAX_PUSH_ATTEMPTS,
            delay == backoff_secs(k as nat),
            k == 0 ==> delay == 1,
            k == 1 ==> delay == 2,
            k == 2 ==> delay == 4,
            k == 3 ==> delay == 8,
        decreases attempt - k,
    {
        delay = delay * 2;
        k = k + 1;
    }
    delay
}

/// The decision after push attempt number `attempt` (counted from 1).
pub fn next_push_step(attempt: u32, delivered: bool) -> (r: PushStep)
    requires
        1 <= attempt <= MAX_PUSH_ATTEMPTS,
    ensures
        delivered ==> r == PushStep::Delivered,
        !delivered && attempt < MAX_PUSH_ATTEMPTS ==> r == PushStep::RetryAfter(
            backoff_secs(attempt as nat) as u64,
        ),
        !delivered && attempt == MAX_PUSH_ATTEMPTS ==> r == PushStep::GiveUpAfter(
            backoff_secs(attempt as nat) as u64,
        ),
{
    if delivered {
        PushStep::Delivered
    } else if attempt < MAX_PUSH_ATTEMPTS {
        PushStep::RetryAfter(backoff_delay(attempt))
    } else {
        PushStep::GiveUpAfter(backoff_delay(attempt))
    }
}

/// A push that fails every time waits 2 + 4 + 8 = 14 seconds in all.
pub proof fn lemma_worst_case_backoff()
    ensures
        backoff_secs(1) + backoff_secs(2) + backoff_secs(3) == 14,
{
    reveal_with_fuel(backoff_secs, 4);
}

/// A summary entry of the anchored log, with its proof and compliance flag.
#[derive(Debug)]
pub struct AnchoredState {
    pub block_height: u64,
    pub state_root: String,
    pub merkle_proof: Vec<String>,
    pub timestamp: i64,
    pub validator_compliance: bool,
}

/// What is pushed to the base layer for one anchor.
#[derive(Debug)]
pub struct BTCZAnchorPayload {
    pub block_height: u64,
    pub state_root: String,
    pub merkle_proof: Vec<String>,
    pub validator_compliance: bool,
    pub timestamp: i64,
}

/// A lock settled on the base layer.
#[derive(Debug)]
pub struct LockEvent {
    pub tx_id: String,
    pub amount: u64,
    pub from_address: String,
    pub to_address: String,
    pub timestamp: i64,
}

/// A burn settled on the secondary layer.
#[derive(Debug)]
pub struct BurnEvent {
    pub tx_id: String,
    pub amount: u64,
    pub from_address: String,
    pub to_address: String,
    pub timestamp: i64,
}

fn copy_strings(v: &Vec<String>) -> (r: Vec<String>)
    ensures
        r@ == v@,
{
    let mut out: Vec<String> = Vec::new();
    let mut i: usize = 0;
    while i < v.len()
        invariant
            i <= v.len(),
            out@ == v@.subrange(0, i as int),
        decreases v.len() - i,
    {
        out.push(v[i].clone());
        i = i + 1;
        assert(out@ =~= v@.subrange(0, i as int));
    }
    assert(out@ =~= v@);
    out
}

/// The proof entries as bytes: hex text decodes, anything else becomes empty.
pub open spec fn decoded_proof(proof: Seq<String>) -> Seq<Seq<u8>> {
    proof.map_values(
        |p: String|
            if is_hex_text(encode_utf8(p@)) {
                hex_decoded(encode_utf8(p@))
            } else {
                Seq::empty()
            },
    )
}

/// The endpoint of the base layer's RPC service.
#[derive(Debug)]
pub struct BTCZIntegration {
    pub rpc_endpoint: String,
}

impl BTCZIntegration {
    pub fn new(rpc_endpoint: String) -> (r: BTCZIntegration)
        ensures
            r.rpc_endpoint == rpc_endpoint,
    {
        BTCZIntegration { rpc_endpoint }
    }

    /// Decodes each hex entry (an entry that is not hex counts as empty) and
    /// checks the proof of `transaction_hash` against the tree's root.
    pub fn validate_merkle_proof(
        &self,
        merkle_tree: &MerkleTree,
        transaction_hash: &str,
        proof: &[String],
    ) -> (r: bool)
        ensures
            r == (fold_proof(decoded_proof(proof@), encode_utf8(transaction_hash@))
                == merkle_tree.root@),
    {
        let mut decoded: Vec<Vec<u8>> = Vec::new();
        let mut i: usize = 0;
        while i < proof.len()
            invariant
                i <= proof@.len(),
                bytes_views(decoded@) == decoded_proof(proof@).subrange(0, i as int),
            decreases proof@.len() - i,
        {
            let text = &proof[i];
            let entry = match hex_decode(text) {
                Some(bytes) => bytes,
                None => Vec::new(),
            };
            assert(entry@ == decoded_proof(proof@)[i as int]);
            let ghost before = bytes_views(decoded@);
            let ghost ev = entry@;
            decoded.push(entry);
            assert(bytes_views(decoded@) =~= before.push(ev));
            assert(decoded_proof(proof@).subrange(0, i + 1) =~= decoded_proof(proof@).subrange(
                0,
                i as int,
            ).push(ev));
            i = i + 1;
        }
        assert(bytes_views(decoded@) =~= decoded_proof(proof@));
        MerkleTree::verify_proof(decoded, merkle_tree.get_root(), str_bytes(transaction_hash))
    }

    /// Each proof entry as lowercase hex.
    pub fn encode_proof(proof: &Vec<Vec<u8>>) -> (r: Vec<String>)
        ensures
            r@.len() == proof@.len(),
            forall|i: int| 0 <= i < r@.len() ==> #[trigger] r@[i]@ == hex_of(proof@[i]@),
    {
        let mut out: Vec<String> = Vec::new();
        let mut i: usize = 0;
        while i < proof.len()
            invariant
                i <= proof.len(),
                out.len() == i,
                forall|j: int| 0 <= j < i ==> #[trigger] out@[j]@ == hex_of(proof@[j]@),
            decreases proof.len() - i,
        {
            out.push(hex_encode(&proof[i]));
            i = i + 1;
        }
        out
    }

    /// The tree's proof for `transaction_hash`, each entry as lowercase hex.
    pub fn generate_merkle_proof(&self, merkle_tree: &MerkleTree, transaction_hash: &str) -> (r: Vec<
        String,
    >)
        requires
            merkle_tree.wf(),
        ensures
            r@.len() == proof_for(merkle_tree.leaf_hashes(), encode_utf8(transaction_hash@)).len(),
            forall|i: int|
                0 <= i < r@.len() ==> #[trigger] r@[i]@ == hex_of(
                    proof_for(merkle_tree.leaf_hashes(), encode_utf8(transaction_hash@))[i],
                ),
    {
        let proof = merkle_tree.get_proof(&str_bytes(transaction_hash));
        let out = Self::encode_proof(&proof);
        proof {
            assert forall|j: int| 0 <= j < out@.len() implies #[trigger] out@[j]@ == hex_of(
                proof_for(merkle_tree.leaf_hashes(), encode_utf8(transaction_hash@))[j],
            ) by {
                assert(bytes_views(proof@)[j] == proof@[j]@);
            }
        }
        out
    }
}

/// Every active node is valid under the policy.
pub open spec fn all_active_compliant(nodes: Seq<ValidatorNode>, policy: ValidatorPolicy) -> bool {
    forall|i: int| 0 <= i < nodes.len() && #[trigger] nodes[i].active ==> node_is_valid(nodes[i], policy)
}

pub open spec fn has_anchored_root(s: Seq<AnchoredState>, root: Seq<char>) -> bool {
    exists|i: int| 0 <= i < s.len() && #[trigger] s[i].state_root@ == root
}

/// The anchored log and the settled lock and burn events.
#[derive(Debug)]
pub struct CrossLayerSync {
    pub anchored_states: Vec<AnchoredState>,
    pub btcz_integration: BTCZIntegration,
    pub lock_events: Vec<LockEvent>,
    pub burn_events: Vec<BurnEvent>,
}

impl CrossLayerSync {
    pub fn new(btcz_integration: BTCZIntegration) -> (r: CrossLayerSync)
        ensures
            r.anchored_states@.len() == 0,
            r.lock_events@.len() == 0,
            r.burn_events@.len() == 0,
            r.btcz_integration == btcz_integration,
    {
        CrossLayerSync {
            anchored_states: Vec::new(),
            btcz_integration,
            lock_events: Vec::new(),
            burn_events: Vec::new(),
        }
    }

    pub fn record_lock_event(&mut self, event: LockEvent) -> (r: Result<(), BridgeError>)
        ensures
            r is Ok,
            final(self).lock_events@ == old(self).lock_events@.push(event),
            final(self).burn_events == old(self).burn_events,
            final(self).anchored_states == old(self).anchored_states,
    {
        self.lock_events.push(event);
        Ok(())
    }

    pub fn record_burn_event(&mut self, event: BurnEvent) -> (r: Result<(), BridgeError>)
        ensures
            r is Ok,
            final(self).burn_events@ == old(self).burn_events@.push(event),
            final(self).lock_events == old(self).lock_events,
            final(self).anchored_states == old(self).anchored_states,
    {
        self.burn_events.push(event);
        Ok(())
    }

    /// Appends the anchored entry to the log first, then returns the payload
    /// that is to be pushed to the base layer (stamped with the current time).
    pub fn anchor_state(
        &mut self,
        state_summary: L2StateSummary,
        compliance: bool,
        merkle_proof: Vec<String>,
    ) -> (r: Result<BTCZAnchorPayload, BridgeError>)
        ensures
            final(self).anchored_states@ == old(self).anchored_states@.push(
                AnchoredState {
                    block_height: state_summary.block_height,
                    state_root: state_summary.state_root,
                    merkle_proof,
                    timestamp: state_summary.timestamp,
                    validator_compliance: compliance,
                },
            ),
            final(self).lock_events == old(self).lock_events,
            final(self).burn_events == old(self).burn_events,
            r matches Ok(p) && (p.block_height == state_summary.block_height && p.state_root
                == state_summary.state_root && p.merkle_proof@ == merkle_proof@
                && p.validator_compliance == compliance),
    {
        let payload_proof = copy_strings(&merkle_proof);
        let payload = BTCZAnchorPayload {
            block_height: state_summary.block_height,
            state_root: state_summary.state_root.clone(),
            merkle_proof: payload_proof,
            validator_compliance: compliance,
            timestamp: unix_now(),
        };
        let anchored = AnchoredState {
            block_height: state_summary.block_height,
            state_root: state_summary.state_root,
            merkle_proof,
            timestamp: state_summary.timestamp,
            validator_compliance: compliance,
        };
        self.anchored_states.push(anchored);
        Ok(payload)
    }

    /// Whether some anchored entry has this state root.
    pub fn validate_state(&self, state_root: &str) -> (r: bool)
        ensures
            r == has_anchored_root(self.anchored_states@, state_root@),
    {
        let mut i: usize = 0;
        while i < self.anchored_states.len()
            invariant
                i <= self.anchored_states.len(),
                forall|j: int| 0 <= j < i ==> self.anchored_states@[j].state_root@ != state_root@,
            decreases self.anchored_states.len() - i,
        {
            if str_equal(self.anchored_states[i].state_root.as_str(), state_root) {
                return true;
            }
            i = i + 1;
        }
        false
    }

    /// The most recent anchored entry, if any.
    pub fn get_latest_state(&self) -> (r: Option<AnchoredState>)
        ensures
            self.anchored_states@.len() == 0 ==> r is None,
            self.anchored_states@.len() > 0 ==> (r matches Some(s) && {
                let last = self.anchored_states@.last();
                &&& s.block_height == last.block_height
                &&& s.state_root == last.state_root
                &&& s.merkle_proof@ == last.merkle_proof@
                &&& s.timestamp == last.timestamp
                &&& s.validator_compliance == last.validator_compliance
            }),
    {
        let n = self.anchored_states.len();
        if n == 0 {
            return None;
        }
        let last = &self.anchored_states[n - 1];
        Some(
            AnchoredState {
                block_height: last.block_height,
                state_root: last.state_root.clone(),
                merkle_proof: copy_strings(&last.merkle_proof),
                timestamp: last.timestamp,
                validator_compliance: last.validator_compliance,
            },
        )
    }

    /// A summary over the tree's root, with the compliance flag computed from
    /// the registry, stamped with the current time.
    pub fn generate_anchor_summary(
        merkle_tree: &MerkleTree,
        block_height: u64,
        total_transactions: u64,
        validator_registry: &ValidatorRegistry,
        governance_policies: &GovernanceValidatorPolicies,
    ) -> (r: L2StateSummary)
        ensures
            r.block_height == block_height,
            r.total_transactions == total_transactions,
            r.state_root@ == utf8_lossy(merkle_tree.root@),
            r.compliance == all_active_compliant(
                validator_registry.nodes@,
                governance_policies.policy,
            ),
    {
        let compliance = Self::check_validator_compliance(validator_registry, governance_policies);
        let root = merkle_tree.get_root();
        L2StateSummary {
            block_height,
            state_root: lossy_string(root.as_slice()),
            total_transactions,
            timestamp: unix_now(),
            compliance,
        }
    }

    /// The tree's proof for `transaction_hash`, each entry decoded as lossy UTF-8.
    pub fn generate_merkle_proof(merkle_tree: &MerkleTree, transaction_hash: &str) -> (r: Vec<String>)
        requires
            merkle_tree.wf(),
        ensures
            r@.len() == proof_for(merkle_tree.leaf_hashes(), encode_utf8(transaction_hash@)).len(),
            forall|i: int|
                0 <= i < r@.len() ==> #[trigger] r@[i]@ == utf8_lossy(
                    proof_for(merkle_tree.leaf_hashes(), encode_utf8(transaction_hash@))[i],
                ),
    {
        let proof = merkle_tree.get_proof(&str_bytes(transaction_hash));
        let mut out: Vec<String> = Vec::new();
        let mut i: usize = 0;
        while i < proof.len()
            invariant
                i <= proof.len(),
                out.len() == i,
                forall|j: int| 0 <= j < i ==> #[trigger] out@[j]@ == utf8_lossy(proof@[j]@),
            decreases proof.len() - i,
        {
            out.push(lossy_string(proof[i].as_slice()));
            i = i + 1;
        }
        proof {
            assert forall|j: int| 0 <= j < out@.len() implies #[trigger] out@[j]@ == utf8_lossy(
                proof_for(merkle_tree.leaf_hashes(), encode_utf8(transaction_hash@))[j],
            ) by {
                assert(bytes_views(proof@)[j] == proof@[j]@);
            }
        }
        out
    }

    /// A cycle is compliant only if every active validator is valid under the
    /// policy; one that is not fails the whole cycle.
    pub fn check_validator_compliance(
        validator_registry: &ValidatorRegistry,
        governance_policies: &GovernanceValidatorPolicies,
    ) -> (r: bool)
        ensures
            r == all_active_compliant(validator_registry.nodes@, governance_policies.policy),
    {
        let policy = governance_policies.policy;
        let nodes = &validator_registry.nodes;
        let mut i: usize = 0;
        while i < nodes.len()
            invariant
                i <= nodes.len(),
                policy == governance_policies.policy,
                nodes@ == validator_registry.nodes@,
                forall|j: int| 0 <= j < i && #[trigger] nodes@[j].active ==> node_is_valid(nodes@[j], policy),
            decreases nodes.len() - i,
        {
            let node = &nodes[i];
            if node.active && !(node.staked_btcz >= policy.minimum_stake
                && node.activity_percentage >= policy.activity_threshold) {
                return false;
            }
            i = i + 1;
        }
        true
    }
}

} // verus!
