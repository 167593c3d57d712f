use sha2::{Digest, Sha256};
use vstd::prelude::*;
use vstd::utf8::{decode_utf8, valid_utf8};

verus! {

/// The SHA-256 digest of a byte string.
pub uninterp spec fn sha256_of(data: Seq<u8>) -> Seq<u8>;

/// Relies on `sha2::Sha256`: two `update` calls followed by `finalize` give the
/// SHA-256 digest of the concatenation of the two inputs, 32 bytes long.
#[verifier::external_body]
fn sha256_concat(first: &[u8], second: &[u8]) -> (r: Vec<u8>)
    ensures
        r@ == sha256_of(first@ + second@),
        r@.len() == 32,
{
    let mut hasher = Sha256::new();
    hasher.update(first);
    hasher.update(second);
    hasher.finalize().to_vec()
}

/// Lexicographic order on byte strings (a proper prefix comes first).
pub open spec fn bytes_lt(a: Seq<u8>, b: Seq<u8>) -> bool
    decreases a.len(),
{
    if a.len() == 0 {
        b.len() > 0
    } else if b.len() == 0 {
        false
    } else if a[0] != b[0] {
        a[0] < b[0]
    } else {
        bytes_lt(a.drop_first(), b.drop_first())
    }
}

proof fn lemma_bytes_lt_asymmetric(a: Seq<u8>, b: Seq<u8>)
    ensures
        bytes_lt(a, b) ==> !bytes_lt(b, a),
        !bytes_lt(a, b) && !bytes_lt(b, a) ==> a == b,
    decreases a.len(),
{
    if a.len() > 0 && b.len() > 0 && a[0] == b[0] {
        lemma_bytes_lt_asymmetric(a.drop_first(), b.drop_first());
        if !bytes_lt(a, b) && !bytes_lt(b, a) {
            assert(a =~= seq![a[0]] + a.drop_first());
            assert(b =~= seq![b[0]] + b.drop_first());
        }
    }
    if a.len() == 0 && b.len() == 0 {
        assert(a =~= b);
    }
}

/// Parent of two sibling hashes: the smaller (by byte order) comes first, so
/// the result does not depend on which side each sibling stands.
pub open spec fn hash_pair(a: Seq<u8>, b: Seq<u8>) -> Seq<u8> {
    if bytes_lt(a, b) {
        sha256_of(a + b)
    } else {
        sha256_of(b + a)
    }
}

/// Combining two hashes gives the same parent whichever side each stands on.
pub proof fn lemma_hash_pair_symmetric(a: Seq<u8>, b: Seq<u8>)
    ensures
        hash_pair(a, b) == hash_pair(b, a),
{
    lemma_bytes_lt_asymmetric(a, b);
    lemma_bytes_lt_asymmetric(b, a);
}

fn bytes_less(a: &Vec<u8>, b: &Vec<u8>) -> (r: bool)
    ensures
        r == bytes_lt(a@, b@),
{
    let mut i: usize = 0;
    assert(a@.skip(0) =~= a@);
    assert(b@.skip(0) =~= b@);
    while i < a.len() && i < b.len()
        invariant
            i <= a.len(),
            i <= b.len(),
            bytes_lt(a@, b@) == bytes_lt(a@.skip(i as int), b@.skip(i as int)),
        decreases a.len() - i,
    {
        assert(a@.skip(i as int).drop_first() =~= a@.skip(i + 1));
        assert(b@.skip(i as int).drop_first() =~= b@.skip(i + 1));
        if a[i] != b[i] {
            return a[i] < b[i];
        }
        i = i + 1;
    }
    a.len() < b.len()
}

fn combine_hashes(a: &Vec<u8>, b: &Vec<u8>) -> (r: Vec<u8>)
    ensures
        r@ == hash_pair(a@, b@),
{
    if bytes_less(a, b) {
        sha256_concat(a.as_slice(), b.as_slice())
    } else {
        sha256_concat(b.as_slice(), a.as_slice())
    }
}


/// One level up: adjacent nodes are paired; an odd node at the end is paired
/// with itself.
pub open spec fn next_level(s: Seq<Seq<u8>>) -> Seq<Seq<u8>> {
    Seq::new(
        ((s.len() + 1) / 2) as nat,
        |i: int|
            if 2 * i + 1 < s.len() {
                hash_pair(s[2 * i], s[2 * i + 1])
            } else {
                hash_pair(s[2 * i], s[2 * i])
            },
    )
}

/// The root over a non-empty level.
pub open spec fn root_of(s: Seq<Seq<u8>>) -> Seq<u8>
    decreases s.len(),
{
    if s.len() <= 1 {
        s[0]
    } else {
        root_of(next_level(s))
    }
}

/// The node paired with position `idx` of a level (itself when it is the odd
/// node at the end).
pub open spec fn sibling(s: Seq<Seq<u8>>, idx: int) -> Seq<u8> {
    if idx % 2 == 0 {
        if idx + 1 < s.len() {
            s[idx + 1]
        } else {
            s[idx]
        }
    } else {
        s[idx - 1]
    }
}

/// The sibling hashes met on the way from position `idx` up to the root.
pub open spec fn path_of(s: Seq<Seq<u8>>, idx: int) -> Seq<Seq<u8>>
    decreases s.len(),
{
    if s.len() <= 1 {
        Seq::empty()
    } else {
        seq![sibling(s, idx)] + path_of(next_level(s), idx / 2)
    }
}

/// Folds a value with each proof entry in turn.
pub open spec fn fold_proof(proof: Seq<Seq<u8>>, value: Seq<u8>) -> Seq<u8>
    decreases proof.len(),
{
    if proof.len() == 0 {
        value
    } else {
        fold_proof(proof.drop_first(), hash_pair(value, proof[0]))
    }
}

/// The first position of `x` in `s`, which must hold it.
pub open spec fn first_index(s: Seq<Seq<u8>>, x: Seq<u8>) -> int {
    choose|i: int| 0 <= i < s.len() && s[i] == x && forall|j: int| 0 <= j < i ==> s[j] != x
}

/// The proof that `get_proof` gives for `x` over the leaves `s`.
pub open spec fn proof_for(s: Seq<Seq<u8>>, x: Seq<u8>) -> Seq<Seq<u8>> {
    if s.contains(x) {
        path_of(s, first_index(s, x))
    } else {
        Seq::empty()
    }
}

pub open spec fn bytes_views(v: Seq<Vec<u8>>) -> Seq<Seq<u8>> {
    v.map_values(|h: Vec<u8>| h@)
}

pub open spec fn node_views(v: Seq<MerkleNode>) -> Seq<Seq<u8>> {
    v.map_values(|n: MerkleNode| n@)
}

/// Folding the path of any position with the value there gives the root.
pub proof fn lemma_path_reaches_root(s: Seq<Seq<u8>>, idx: int)
    requires
        0 <= idx < s.len(),
    ensures
        fold_proof(path_of(s, idx), s[idx]) == root_of(s),
    decreases s.len(),
{
    if s.len() > 1 {
        let next = next_level(s);
        let p = path_of(s, idx);
        assert(p.drop_first() =~= path_of(next, idx / 2));
        if idx % 2 == 1 {
            lemma_hash_pair_symmetric(s[idx], s[idx - 1]);
        }
        assert(hash_pair(s[idx], sibling(s, idx)) == next[idx / 2]);
        lemma_path_reaches_root(next, idx / 2);
    }
}

/// A node of the hash tree.
#[derive(Debug)]
pub struct MerkleNode {
    pub hash: Vec<u8>,
}

impl View for MerkleNode {
    type V = Seq<u8>;

    open spec fn view(&self) -> Seq<u8> {
        self.hash@
    }
}

fn copy_bytes(v: &Vec<u8>) -> (r: Vec<u8>)
    ensures
        r@ == v@,
{
    let r = v.clone();
    assert(r@ =~= v@);
    r
}

impl MerkleNode {
    pub fn duplicate(&self) -> (r: MerkleNode)
        ensures
            r@ == self@,
    {
        MerkleNode { hash: copy_bytes(&self.hash) }
    }
}

fn parent_level(nodes: &Vec<MerkleNode>) -> (r: Vec<MerkleNode>)
    ensures
        r.len() == (nodes.len() + 1) / 2,
        node_views(r@) == next_level(node_views(nodes@)),
{
    let ghost s = node_views(nodes@);
    let n = nodes.len();
    let half = n / 2 + n % 2;
    let mut parents: Vec<MerkleNode> = Vec::new();
    let mut p: usize = 0;
    while p < half
        invariant
            s == node_views(nodes@),
            n == nodes.len(),
            half == (n + 1) / 2,
            p <= half,
            parents.len() == p,
            forall|k: int| 0 <= k < parents.len() ==> #[trigger] parents@[k]@ == next_level(s)[k],
        decreases half - p,
    {
        let i = 2 * p;
        let hash = if i + 1 < n {
            combine_hashes(&nodes[i].hash, &nodes[i + 1].hash)
        } else {
            combine_hashes(&nodes[i].hash, &nodes[i].hash)
        };
        parents.push(MerkleNode { hash });
        p = p + 1;
    }
    assert(node_views(parents@) =~= next_level(s));
    parents
}

/// A binary hash tree over an ordered, non-empty sequence of leaves.
#[derive(Debug)]
pub struct MerkleTree {
    pub root: MerkleNode,
    pub leaves: Vec<MerkleNode>,
}

impl MerkleTree {
    pub open spec fn leaf_hashes(&self) -> Seq<Seq<u8>> {
        node_views(self.leaves@)
    }

    /// The tree holds at least one leaf and its root is the one they determine.
    pub open spec fn wf(&self) -> bool {
        &&& self.leaves.len() > 0
        &&& self.root@ == root_of(self.leaf_hashes())
    }

    /// Builds the tree; there must be at least one leaf.
    pub fn new(transaction_hashes: Vec<Vec<u8>>) -> (r: MerkleTree)
        requires
            transaction_hashes.len() > 0,
        ensures
            r.wf(),
            r.leaf_hashes() == bytes_views(transaction_hashes@),
    {
        let mut leaves: Vec<MerkleNode> = Vec::new();
        let mut i: usize = 0;
        while i < transaction_hashes.len()
            invariant
                i <= transaction_hashes.len(),
                leaves.len() == i,
                forall|k: int| 0 <= k < i ==> #[trigger] leaves@[k]@ == transaction_hashes@[k]@,
            decreases transaction_hashes.len() - i,
        {
            leaves.push(MerkleNode { hash: copy_bytes(&transaction_hashes[i]) });
            i = i + 1;
        }
        assert(node_views(leaves@) =~= bytes_views(transaction_hashes@));
        let root = Self::build_tree(&leaves);
        MerkleTree { root, leaves }
    }

    fn build_tree(nodes: &Vec<MerkleNode>) -> (r: MerkleNode)
        requires
            nodes.len() > 0,
        ensures
            r@ == root_of(node_views(nodes@)),
        decreases nodes.len(),
    {
        if nodes.len() == 1 {
            return nodes[0].duplicate();
        }
        let parents = parent_level(nodes);
        Self::build_tree(&parents)
    }

    pub fn get_root(&self) -> (r: Vec<u8>)
        ensures
            r@ == self.root@,
    {
        copy_bytes(&self.root.hash)
    }

    /// The sibling hashes from the first leaf equal to `transaction_hash` up
    /// to the root; empty when no leaf is equal to it.
    pub fn get_proof(&self, transaction_hash: &Vec<u8>) -> (r: Vec<Vec<u8>>)
        requires
            self.wf(),
        ensures
            bytes_views(r@) == proof_for(self.leaf_hashes(), transaction_hash@),
    {
        let ghost leaves = self.leaf_hashes();
        let ghost x = transaction_hash@;
        let mut found: Option<usize> = None;
        let mut i: usize = 0;
        while i < self.leaves.len() && found.is_none()
            invariant
                leaves == self.leaf_hashes(),
                x == transaction_hash@,
                i <= self.leaves.len(),
                found is None ==> forall|j: int| 0 <= j < i ==> leaves[j] != x,
                found is Some ==> {
                    let f = found->Some_0 as int;
                    &&& f < self.leaves.len()
                    &&& leaves[f] == x
                    &&& forall|j: int| 0 <= j < f ==> leaves[j] != x
                },
            decreases self.leaves.len() - i,
        {
            assert(leaves[i as int] == self.leaves@[i as int]@);
            if slices_equal(&self.leaves[i].hash, transaction_hash) {
                found = Some(i);
            }
            i = i + 1;
        }
        let mut proof: Vec<Vec<u8>> = Vec::new();
        let start = match found {
            None => {
                assert(!leaves.contains(x));
                assert(bytes_views(proof@) =~= Seq::<Seq<u8>>::empty());
                return proof;
            },
            Some(f) => f,
        };
        assert(leaves.contains(x)) by {
            assert(leaves[start as int] == x);
        }
        assert(first_index(leaves, x) == start as int) by {
            let c = first_index(leaves, x);
            assert(0 <= start < leaves.len() && leaves[start as int] == x);
            if c < start as int {
                assert(leaves[c] != x);
            }
            if c > start as int {
                assert(leaves[start as int] != x);
            }
        }
        let mut layer: Vec<MerkleNode> = Vec::new();
        let mut k: usize = 0;
        while k < self.leaves.len()
            invariant
                k <= self.leaves.len(),
                layer.len() == k,
                forall|j: int| 0 <= j < k ==> #[trigger] layer@[j]@ == self.leaves@[j]@,
            decreases self.leaves.len() - k,
        {
            layer.push(self.leaves[k].duplicate());
            k = k + 1;
        }
        assert(node_views(layer@) =~= leaves);
        let mut index: usize = start;
        while layer.len() > 1
            invariant
                index < layer.len(),
                bytes_views(proof@) + path_of(node_views(layer@), index as int) == path_of(
                    leaves,
                    start as int,
                ),
            decreases layer.len(),
        {
            let ghost s = node_views(layer@);
            let sib = if index % 2 == 0 {
                if index + 1 < layer.len() {
                    copy_bytes(&layer[index + 1].hash)
                } else {
                    copy_bytes(&layer[index].hash)
                }
            } else {
                copy_bytes(&layer[index - 1].hash)
            };
            assert(sib@ == sibling(s, index as int));
            let ghost before = bytes_views(proof@);
            let ghost old_index = index;
            proof.push(sib);
            assert(bytes_views(proof@) =~= before + seq![sibling(s, index as int)]);
            assert(path_of(s, index as int) == seq![sibling(s, index as int)] + path_of(
                next_level(s),
                index as int / 2,
            ));
            layer = parent_level(&layer);
            index = index / 2;
            assert(bytes_views(proof@) + path_of(node_views(layer@), index as int) =~= before
                + path_of(s, old_index as int));
        }
        assert(path_of(node_views(layer@), index as int) =~= Seq::<Seq<u8>>::empty());
        assert(bytes_views(proof@) =~= path_of(leaves, start as int));
        proof
    }
}

impl MerkleTree {
    /// The root as text, when its bytes are valid UTF-8.
    pub fn get_root_as_string(&self) -> (r: Result<String, String>)
        ensures
            r is Ok <==> valid_utf8(self.root@),
            r matches Ok(text) ==> text@ == decode_utf8(self.root@),
            r matches Err(msg) ==> msg@ == "Failed to convert root hash to string"@,
    {
        match utf8_string(self.get_root()) {
            Ok(text) => Ok(text),
            Err(_) => Err("Failed to convert root hash to string".to_string()),
        }
    }

    /// Folds `transaction_hash` with each proof entry, smaller hash first at
    /// every step, and compares the result with `root_hash`.
    pub fn verify_proof(proof: Vec<Vec<u8>>, root_hash: Vec<u8>, transaction_hash: Vec<u8>) -> (r:
        bool)
        ensures
            r == (fold_proof(bytes_views(proof@), transaction_hash@) == root_hash@),
    {
        let ghost all = bytes_views(proof@);
        let mut computed = transaction_hash;
        let mut i: usize = 0;
        assert(all.skip(0) =~= all);
        while i < proof.len()
            invariant
                all == bytes_views(proof@),
                i <= proof.len(),
                fold_proof(all.skip(i as int), computed@) == fold_proof(all, transaction_hash@),
            decreases proof.len() - i,
        {
            assert(all.skip(i as int).drop_first() =~= all.skip(i + 1));
            computed = combine_hashes(&computed, &proof[i]);
            i = i + 1;
        }
        assert(all.skip(i as int) =~= Seq::<Seq<u8>>::empty());
        slices_equal(&computed, &root_hash)
    }
}

/// Every leaf's proof verifies against the root. Any other value gets an
/// empty proof, which verifies against no root but the value itself.
pub proof fn lemma_membership_proofs(tree: MerkleTree, x: Seq<u8>)
    requires
        tree.wf(),
    ensures
        tree.leaf_hashes().contains(x) ==> fold_proof(proof_for(tree.leaf_hashes(), x), x)
            == tree.root@,
        !tree.leaf_hashes().contains(x) ==> proof_for(tree.leaf_hashes(), x).len() == 0,
        !tree.leaf_hashes().contains(x) && x != tree.root@ ==> fold_proof(
            proof_for(tree.leaf_hashes(), x),
            x,
        ) != tree.root@,
{
    let s = tree.leaf_hashes();
    if s.contains(x) {
        let w = choose|i: int| 0 <= i < s.len() && s[i] == x;
        lemma_first_index_exists(s, x, w);
        lemma_path_reaches_root(s, first_index(s, x));
    }
}

proof fn lemma_first_index_exists(s: Seq<Seq<u8>>, x: Seq<u8>, w: int)
    requires
        0 <= w < s.len(),
        s[w] == x,
    ensures
        0 <= first_index(s, x) < s.len(),
        s[first_index(s, x)] == x,
    decreases w,
{
    if exists|j: int| 0 <= j < w && s[j] == x {
        let j = choose|j: int| 0 <= j < w && s[j] == x;
        lemma_first_index_exists(s, x, j);
    } else {
        assert(0 <= w < s.len() && s[w] == x && forall|j: int| 0 <= j < w ==> s[j] != x);
    }
}

/// Relies on `String::from_utf8`: it succeeds exactly on valid UTF-8 and then
/// holds the decoded characters.
#[verifier::external_body]
fn utf8_string(bytes: Vec<u8>) -> (r: Result<String, ()>)
    ensures
        r is Ok <==> valid_utf8(bytes@),
        r matches Ok(text) ==> text@ == decode_utf8(bytes@),
{
    String::from_utf8(bytes).map_err(|_| ())
}

fn slices_equal(a: &Vec<u8>, b: &Vec<u8>) -> (r: bool)
    ensures
        r == (a@ == b@),
{
    if a.len() != b.len() {
        return false;
    }
    let mut i: usize = 0;
    while i < a.len()
        invariant
            a.len() == b.len(),
            i <= a.len(),
            forall|j: int| 0 <= j < i ==> a@[j] == b@[j],
        decreases a.len() - i,
    {
        if a[i] != b[i] {
            return false;
        }
        i = i + 1;
    }
    assert(a@ =~= b@);
    true
}

} // verus!
