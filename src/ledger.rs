use crate::encoding::str_bytes;
use crate::errors::BridgeError;
use crate::merkle::{bytes_views, fold_proof, proof_for, MerkleTree};
use vstd::prelude::*;
use vstd::utf8::encode_utf8;

verus! {

/// An amount held by one address.
#[derive(Debug)]
pub struct AccountBalance {
    pub address: String,
    pub amount: u64,
}

pub open spec fn unique_addresses(s: Seq<AccountBalance>) -> bool {
    forall|i: int, j: int|
        0 <= i < j < s.len() ==> #[trigger] s[i].address@ != #[trigger] s[j].address@
}

pub open spec fn holds_address(s: Seq<AccountBalance>, a: Seq<char>) -> bool {
    exists|i: int| 0 <= i < s.len() && #[trigger] s[i].address@ == a
}

/// The amount recorded for `a`, zero when none is.
pub open spec fn amount_of(s: Seq<AccountBalance>, a: Seq<char>) -> nat {
    if holds_address(s, a) {
        s[choose|i: int| 0 <= i < s.len() && #[trigger] s[i].address@ == a].amount as nat
    } else {
        0
    }
}

pub open spec fn sum_amounts(s: Seq<AccountBalance>) -> nat
    decreases s.len(),
{
    if s.len() == 0 {
        0
    } else {
        (sum_amounts(s.drop_last()) + s.last().amount) as nat
    }
}

proof fn lemma_amount_at(s: Seq<AccountBalance>, k: int)
    requires
        unique_addresses(s),
        0 <= k < s.len(),
    ensures
        amount_of(s, s[k].address@) == s[k].amount,
{
    let a = s[k].address@;
    assert(holds_address(s, a));
    let c = choose|i: int| 0 <= i < s.len() && #[trigger] s[i].address@ == a;
    if c != k {
        if c < k {
            assert(s[c].address@ != s[k].address@);
        } else {
            assert(s[k].address@ != s[c].address@);
        }
    }
}

proof fn lemma_sum_update(s: Seq<AccountBalance>, k: int, e: AccountBalance)
    requires
        0 <= k < s.len(),
    ensures
        sum_amounts(s.update(k, e)) + s[k].amount == sum_amounts(s) + e.amount,
    decreases s.len(),
{
    let t = s.update(k, e);
    if k < s.len() - 1 {
        assert(t.drop_last() =~= s.drop_last().update(k, e));
        lemma_sum_update(s.drop_last(), k, e);
    } else {
        assert(t.drop_last() =~= s.drop_last());
    }
}

/// Replacing the amount at `k` changes that address alone.
proof fn lemma_update_amount(s: Seq<AccountBalance>, k: int, e: AccountBalance)
    requires
        unique_addresses(s),
        0 <= k < s.len(),
        e.address@ == s[k].address@,
    ensures
        unique_addresses(s.update(k, e)),
        forall|b: Seq<char>|
            #[trigger] amount_of(s.update(k, e), b) == if b == e.address@ {
                e.amount as nat
            } else {
                amount_of(s, b)
            },
        sum_amounts(s.update(k, e)) + s[k].amount == sum_amounts(s) + e.amount,
{
    let t = s.update(k, e);
    assert(unique_addresses(t)) by {
        assert forall|i: int, j: int| 0 <= i < j < t.len() implies #[trigger] t[i].address@
            != #[trigger] t[j].address@ by {
            assert(s[i].address@ != s[j].address@);
        }
    }
    assert forall|b: Seq<char>|
        #[trigger] amount_of(t, b) == if b == e.address@ {
            e.amount as nat
        } else {
            amount_of(s, b)
        } by {
        if b == e.address@ {
            lemma_amount_at(t, k);
        } else {
            if holds_address(s, b) {
                let i = choose|i: int| 0 <= i < s.len() && #[trigger] s[i].address@ == b;
                lemma_amount_at(s, i);
                lemma_amount_at(t, i);
            } else {
                assert(!holds_address(t, b)) by {
                    if holds_address(t, b) {
                        let i = choose|i: int| 0 <= i < t.len() && #[trigger] t[i].address@ == b;
                        assert(s[i].address@ == b);
                    }
                }
            }
        }
    }
    lemma_sum_update(s, k, e);
}

/// Appending a new address changes that address alone.
proof fn lemma_push_amount(s: Seq<AccountBalance>, e: AccountBalance)
    requires
        unique_addresses(s),
        !holds_address(s, e.address@),
    ensures
        unique_addresses(s.push(e)),
        forall|b: Seq<char>|
            #[trigger] amount_of(s.push(e), b) == if b == e.address@ {
                e.amount as nat
            } else {
                amount_of(s, b)
            },
        sum_amounts(s.push(e)) == sum_amounts(s) + e.amount,
{
    let t = s.push(e);
    assert(t.drop_last() =~= s);
    assert(unique_addresses(t)) by {
        assert forall|i: int, j: int| 0 <= i < j < t.len() implies #[trigger] t[i].address@
            != #[trigger] t[j].address@ by {
            if j < s.len() {
                assert(s[i].address@ != s[j].address@);
            } else {
                assert(t[i] == s[i]);
            }
        }
    }
    assert forall|b: Seq<char>|
        #[trigger] amount_of(t, b) == if b == e.address@ {
            e.amount as nat
        } else {
            amount_of(s, b)
        } by {
        if b == e.address@ {
            lemma_amount_at(t, s.len() as int);
        } else {
            if holds_address(s, b) {
                let i = choose|i: int| 0 <= i < s.len() && #[trigger] s[i].address@ == b;
                lemma_amount_at(s, i);
                lemma_amount_at(t, i);
            } else {
                assert(!holds_address(t, b)) by {
                    if holds_address(t, b) {
                        let i = choose|i: int| 0 <= i < t.len() && #[trigger] t[i].address@ == b;
                        assert(s[i].address@ == b);
                    }
                }
            }
        }
    }
}

fn find_address(s: &Vec<AccountBalance>, address: &String) -> (r: Option<usize>)
    ensures
        r matches Some(k) ==> k < s.len() && s@[k as int].address@ == address@,
        r is None ==> !holds_address(s@, address@),
{
    let mut i: usize = 0;
    while i < s.len()
        invariant
            i <= s.len(),
            forall|j: int| 0 <= j < i ==> s@[j].address@ != address@,
        decreases s.len() - i,
    {
        if s[i].address == *address {
            return Some(i);
        }
        i = i + 1;
    }
    None
}

/// Adds `amount` to the balance of `address`; the caller keeps the sum in range.
pub(crate) fn credit(s: &mut Vec<AccountBalance>, address: String, amount: u64)
    requires
        unique_addresses(old(s)@),
        amount_of(old(s)@, address@) + amount <= u64::MAX,
    ensures
        unique_addresses(final(s)@),
        forall|b: Seq<char>|
            #[trigger] amount_of(final(s)@, b) == if b == address@ {
                (amount_of(old(s)@, b) + amount) as nat
            } else {
                amount_of(old(s)@, b)
            },
        sum_amounts(final(s)@) == sum_amounts(old(s)@) + amount,
{
    match find_address(s, &address) {
        Some(k) => {
            proof {
                lemma_amount_at(s@, k as int);
            }
            let e = AccountBalance { address, amount: s[k].amount + amount };
            proof {
                lemma_update_amount(s@, k as int, e);
            }
            s.set(k, e);
        },
        None => {
            let e = AccountBalance { address, amount };
            proof {
                lemma_push_amount(s@, e);
            }
            s.push(e);
        },
    }
}

/// Takes `amount` from the balance of `address`, which holds at least that much.
pub(crate) fn debit(s: &mut Vec<AccountBalance>, address: &String, amount: u64)
    requires
        unique_addresses(old(s)@),
        amount <= amount_of(old(s)@, address@),
    ensures
        unique_addresses(final(s)@),
        forall|b: Seq<char>|
            #[trigger] amount_of(final(s)@, b) == if b == address@ {
                (amount_of(old(s)@, b) - amount) as nat
            } else {
                amount_of(old(s)@, b)
            },
        sum_amounts(final(s)@) + amount == sum_amounts(old(s)@),
{
    if amount == 0 {
        return;
    }
    match find_address(s, address) {
        Some(k) => {
            proof {
                lemma_amount_at(s@, k as int);
            }
            let e = AccountBalance { address: address.clone(), amount: s[k].amount - amount };
            proof {
                lemma_update_amount(s@, k as int, e);
            }
            s.set(k, e);
        },
        None => {},
    }
}

pub(crate) fn balance_of(s: &Vec<AccountBalance>, address: &String) -> (r: u64)
    requires
        unique_addresses(s@),
    ensures
        r == amount_of(s@, address@),
{
    match find_address(s, address) {
        Some(k) => {
            proof {
                lemma_amount_at(s@, k as int);
            }
            s[k].amount
        },
        None => 0,
    }
}

/// The bytes of a transaction id, as its UTF-8 encoding.
pub open spec fn tx_bytes(tx_id: Seq<char>) -> Seq<u8> {
    encode_utf8(tx_id)
}

/// Whether the proof that `tree` gives for `tx` leads to its root.
pub open spec fn tree_proves(tree: MerkleTree, tx: Seq<u8>) -> bool {
    fold_proof(proof_for(tree.leaf_hashes(), tx), tx) == tree.root@
}


/// Why a burn is refused, checked in this order: a zero amount, an id
/// settled before, a proof that does not lead to the root, more than the
/// locked balance, a burned balance past `u64::MAX`. `None` when it goes through.
pub open spec fn burn_error(
    ledger: BridgeLedger,
    address: Seq<char>,
    amount: u64,
    tx_id: Seq<char>,
    tree: MerkleTree,
) -> Option<BridgeError> {
    if amount == 0 {
        Some(BridgeError::InvalidAmount)
    } else if ledger.is_processed(tx_id) {
        Some(BridgeError::DuplicateTransaction)
    } else if !tree_proves(tree, tx_bytes(tx_id)) {
        Some(BridgeError::InvalidMerkleProof)
    } else if amount > ledger.locked_balance(address) {
        Some(BridgeError::InsufficientBalance)
    } else if ledger.burned_balance(address) + amount > u64::MAX {
        Some(BridgeError::Overflow)
    } else {
        None
    }
}

/// Once a burn has been settled under an id, any later burn with that id is
/// refused, whatever the balance: as a duplicate, or for its zero amount.
pub proof fn lemma_second_burn_rejected(
    before: BridgeLedger,
    after: BridgeLedger,
    tx_id: String,
    address: Seq<char>,
    amount: u64,
    tree: MerkleTree,
)
    requires
        after.processed_transactions@ == before.processed_transactions@.push(tx_id),
    ensures
        burn_error(after, address, amount, tx_id@, tree) is Some,
        amount > 0 ==> burn_error(after, address, amount, tx_id@, tree) == Some(
            BridgeError::DuplicateTransaction,
        ),
{
    let last = before.processed_transactions@.len() as int;
    assert(after.processed_transactions@[last]@ == tx_id@);
    assert(after.is_processed(tx_id@));
}

/// Lock and burn accounting: locked and burned amounts per address, their
/// totals, and the ids of the burns already settled.
#[derive(Debug)]
pub struct BridgeLedger {
    pub locked_tokens: Vec<AccountBalance>,
    pub burned_tokens: Vec<AccountBalance>,
    pub processed_transactions: Vec<String>,
    pub total_locked: u128,
    pub total_burned: u128,
}

impl BridgeLedger {
    pub open spec fn wf(&self) -> bool {
        &&& unique_addresses(self.locked_tokens@)
        &&& unique_addresses(self.burned_tokens@)
        &&& self.total_locked == sum_amounts(self.locked_tokens@)
        &&& self.total_burned == sum_amounts(self.burned_tokens@)
    }

    pub open spec fn locked_balance(&self, address: Seq<char>) -> nat {
        amount_of(self.locked_tokens@, address)
    }

    pub open spec fn burned_balance(&self, address: Seq<char>) -> nat {
        amount_of(self.burned_tokens@, address)
    }

    pub open spec fn is_processed(&self, tx_id: Seq<char>) -> bool {
        exists|i: int|
            0 <= i < self.processed_transactions.len() && #[trigger] self.processed_transactions@[i]@
                == tx_id
    }

    pub fn new() -> (r: BridgeLedger)
        ensures
            r.wf(),
            r.total_locked == 0,
            r.total_burned == 0,
            forall|a: Seq<char>| r.locked_balance(a) == 0 && r.burned_balance(a) == 0,
            forall|t: Seq<char>| !r.is_processed(t),
    {
        let r = BridgeLedger {
            locked_tokens: Vec::new(),
            burned_tokens: Vec::new(),
            processed_transactions: Vec::new(),
            total_locked: 0,
            total_burned: 0,
        };
        assert(r.locked_tokens@.len() == 0);
        r
    }

    /// Adds `amount` to the locked balance of `address`. Zero is rejected, and
    /// so is an amount that would take that balance past `u64::MAX`.
    pub fn lock_btcz(&mut self, address: String, amount: u64) -> (r: Result<(), BridgeError>)
        requires
            old(self).wf(),
        ensures
            final(self).wf(),
            amount == 0 ==> r == Err::<(), BridgeError>(BridgeError::InvalidAmount),
            amount > 0 && old(self).locked_balance(address@) + amount > u64::MAX ==> r == Err::<
                (),
                BridgeError,
            >(BridgeError::Overflow),
            amount > 0 && old(self).locked_balance(address@) + amount <= u64::MAX ==> r is Ok,
            r is Err ==> *final(self) == *old(self),
            r is Ok ==> {
                &&& final(self).locked_balance(address@) == old(self).locked_balance(address@)
                    + amount
                &&& forall|b: Seq<char>|
                    b != address@ ==> #[trigger] final(self).locked_balance(b) == old(
                        self,
                    ).locked_balance(b)
                &&& final(self).total_locked == old(self).total_locked + amount
                &&& final(self).burned_tokens == old(self).burned_tokens
                &&& final(self).processed_transactions == old(self).processed_transactions
                &&& final(self).total_burned == old(self).total_burned
            },
    {
        if amount == 0 {
            return Err(BridgeError::InvalidAmount);
        }
        let current = balance_of(&self.locked_tokens, &address);
        if amount > u64::MAX - current {
            return Err(BridgeError::Overflow);
        }
        let n = self.locked_tokens.len();
        proof {
            lemma_sum_bound(self.locked_tokens@);
            lemma_total_room(self.total_locked as int, n as int, amount as int);
        }
        credit(&mut self.locked_tokens, address, amount);
        self.total_locked = self.total_locked + amount as u128;
        Ok(())
    }

    /// Settles a burn: the amount must be positive, `transaction_hash` must not
    /// have been settled before, the proof that `merkle_tree` gives for it must
    /// lead to the root, and `address` must have at least `amount` locked. On
    /// success the amount moves from locked to burned, the id is recorded, and
    /// the proof that was checked is returned for anchoring.
    pub fn burn_zbtcz(
        &mut self,
        address: String,
        amount: u64,
        transaction_hash: String,
        merkle_tree: &MerkleTree,
    ) -> (r: Result<Vec<Vec<u8>>, BridgeError>)
        requires
            old(self).wf(),
            merkle_tree.wf(),
        ensures
            final(self).wf(),
            r is Err <==> burn_error(*old(self), address@, amount, transaction_hash@, *merkle_tree)
                is Some,
            r matches Err(e) ==> burn_error(
                *old(self),
                address@,
                amount,
                transaction_hash@,
                *merkle_tree,
            ) == Some(e),
            r is Err ==> *final(self) == *old(self),
            r matches Ok(proof) ==> {
                &&& bytes_views(proof@) == proof_for(
                    merkle_tree.leaf_hashes(),
                    tx_bytes(transaction_hash@),
                )
                &&& final(self).locked_balance(address@) == old(self).locked_balance(address@)
                    - amount
                &&& final(self).burned_balance(address@) == old(self).burned_balance(address@)
                    + amount
                &&& forall|b: Seq<char>|
                    b != address@ ==> #[trigger] final(self).locked_balance(b) == old(
                        self,
                    ).locked_balance(b) && final(self).burned_balance(b) == old(
                        self,
                    ).burned_balance(b)
                &&& final(self).processed_transactions@ == old(self).processed_transactions@.push(
                    transaction_hash,
                )
                &&& final(self).is_processed(transaction_hash@)
                &&& final(self).total_locked == old(self).total_locked - amount
                &&& final(self).total_burned == old(self).total_burned + amount
            },
    {
        if amount == 0 {
            return Err(BridgeError::InvalidAmount);
        }
        if self.validate_transaction(&transaction_hash) {
            return Err(BridgeError::DuplicateTransaction);
        }
        let tx = str_bytes(transaction_hash.as_str());
        let proof = merkle_tree.get_proof(&tx);
        let checked = copy_proof(&proof);
        if !MerkleTree::verify_proof(checked, merkle_tree.get_root(), tx) {
            return Err(BridgeError::InvalidMerkleProof);
        }
        let locked = balance_of(&self.locked_tokens, &address);
        if amount > locked {
            return Err(BridgeError::InsufficientBalance);
        }
        let burned = balance_of(&self.burned_tokens, &address);
        if amount > u64::MAX - burned {
            return Err(BridgeError::Overflow);
        }
        let n = self.burned_tokens.len();
        proof {
            lemma_amount_within_sum(self.locked_tokens@, address@);
            lemma_sum_bound(self.burned_tokens@);
            lemma_total_room(self.total_burned as int, n as int, amount as int);
        }
        debit(&mut self.locked_tokens, &address, amount);
        self.total_locked = self.total_locked - amount as u128;
        credit(&mut self.burned_tokens, address, amount);
        self.total_burned = self.total_burned + amount as u128;
        let ghost id = transaction_hash@;
        self.processed_transactions.push(transaction_hash);
        assert(self.processed_transactions@[self.processed_transactions@.len() - 1]@ == id);
        Ok(proof)
    }

    /// Whether a burn with this id has been settled.
    pub fn validate_transaction(&self, tx_id: &String) -> (r: bool)
        ensures
            r == self.is_processed(tx_id@),
    {
        let mut i: usize = 0;
        while i < self.processed_transactions.len()
            invariant
                i <= self.processed_transactions.len(),
                forall|j: int| 0 <= j < i ==> self.processed_transactions@[j]@ != tx_id@,
            decreases self.processed_transactions.len() - i,
        {
            if self.processed_transactions[i] == *tx_id {
                return true;
            }
            i = i + 1;
        }
        false
    }

    pub fn get_locked_balance(&self, address: &String) -> (r: u64)
        requires
            self.wf(),
        ensures
            r == self.locked_balance(address@),
    {
        balance_of(&self.locked_tokens, address)
    }

    pub fn get_burned_balance(&self, address: &String) -> (r: u64)
        requires
            self.wf(),
        ensures
            r == self.burned_balance(address@),
    {
        balance_of(&self.burned_tokens, address)
    }

    /// The totals locked and burned over all addresses.
    pub fn audit_token_flow(&self) -> (r: (u128, u128))
        requires
            self.wf(),
        ensures
            r.0 == sum_amounts(self.locked_tokens@),
            r.1 == sum_amounts(self.burned_tokens@),
    {
        (self.total_locked, self.total_burned)
    }
}

/// Each entry holds at most `u64::MAX`.
pub proof fn lemma_sum_bound(s: Seq<AccountBalance>)
    ensures
        sum_amounts(s) <= s.len() * 0xffff_ffff_ffff_ffff,
    decreases s.len(),
{
    if s.len() > 0 {
        lemma_sum_bound(s.drop_last());
        assert(s.len() * 0xffff_ffff_ffff_ffff == (s.len() - 1) * 0xffff_ffff_ffff_ffff
            + 0xffff_ffff_ffff_ffff) by (nonlinear_arith);
    }
}

/// A total over at most `usize::MAX` entries, plus one more `u64`, fits in `u128`.
proof fn lemma_total_room(total: int, n: int, amount: int)
    requires
        0 <= n <= 0xffff_ffff_ffff_ffff,
        0 <= total <= n * 0xffff_ffff_ffff_ffff,
        0 <= amount <= 0xffff_ffff_ffff_ffff,
    ensures
        total + amount <= 0xffff_ffff_ffff_ffff_ffff_ffff_ffff_ffff,
{
    assert(n * 0xffff_ffff_ffff_ffff <= 0xffff_ffff_ffff_ffff * 0xffff_ffff_ffff_ffff)
        by (nonlinear_arith)
        requires
            0 <= n <= 0xffff_ffff_ffff_ffff,
    ;
}

/// One address's amount is part of the total.
pub proof fn lemma_amount_within_sum(s: Seq<AccountBalance>, a: Seq<char>)
    requires
        unique_addresses(s),
    ensures
        amount_of(s, a) <= sum_amounts(s),
    decreases s.len(),
{
    if s.len() > 0 {
        let t = s.drop_last();
        assert(unique_addresses(t)) by {
            assert forall|i: int, j: int| 0 <= i < j < t.len() implies #[trigger] t[i].address@
                != #[trigger] t[j].address@ by {
                assert(s[i].address@ != s[j].address@);
            }
        }
        lemma_amount_within_sum(t, a);
        if s.last().address@ == a {
            lemma_amount_at(s, s.len() - 1);
        } else if holds_address(s, a) {
            let i = choose|i: int| 0 <= i < s.len() && #[trigger] s[i].address@ == a;
            lemma_amount_at(s, i);
            lemma_amount_at(t, i);
        } else {
            assert(!holds_address(t, a)) by {
                if holds_address(t, a) {
                    let i = choose|i: int| 0 <= i < t.len() && #[trigger] t[i].address@ == a;
                    assert(s[i].address@ == a);
                }
            }
        }
    }
}

fn copy_proof(proof: &Vec<Vec<u8>>) -> (r: Vec<Vec<u8>>)
    ensures
        bytes_views(r@) == bytes_views(proof@),
{
    let mut out: Vec<Vec<u8>> = Vec::new();
    let mut i: usize = 0;
    while i < proof.len()
        invariant
            i <= proof.len(),
            out.len() == i,
            forall|j: int| 0 <= j < i ==> #[trigger] out@[j]@ == proof@[j]@,
        decreases proof.len() - i,
    {
        let mut bytes: Vec<u8> = Vec::new();
        let mut k: usize = 0;
        while k < proof[i].len()
            invariant
                k <= proof@[i as int]@.len(),
                i < proof.len(),
                bytes@ == proof@[i as int]@.subrange(0, k as int),
            decreases proof@[i as int]@.len() - k,
        {
            bytes.push(proof[i][k]);
            k = k + 1;
            assert(bytes@ =~= proof@[i as int]@.subrange(0, k as int));
        }
        assert(bytes@ =~= proof@[i as int]@);
        out.push(bytes);
        i = i + 1;
    }
    assert(bytes_views(out@) =~= bytes_views(proof@));
    out
}

} // verus!
