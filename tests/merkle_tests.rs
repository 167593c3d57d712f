use sha2::{Digest, Sha256};
use zook_network::merkle::MerkleTree;
use zook_network::sync::{BTCZIntegration, CrossLayerSync};

fn sha(a: &[u8], b: &[u8]) -> Vec<u8> {
    let mut h = Sha256::new();
    h.update(a);
    h.update(b);
    h.finalize().to_vec()
}

#[test]
fn test_merkle_tree() {
    let transactions = vec![
        b"tx1".to_vec(),
        b"tx2".to_vec(),
        b"tx3".to_vec(),
        b"tx4".to_vec(),
    ];

    let merkle_tree = MerkleTree::new(transactions.clone());
    let root = merkle_tree.get_root();

    for tx in &transactions {
        let proof = merkle_tree.get_proof(tx);
        assert!(
            MerkleTree::verify_proof(proof.clone(), root.clone(), tx.clone()),
            "Failed to verify proof for transaction {:?}",
            tx
        );
    }
}

#[test]
fn test_invalid_transaction() {
    let transactions = vec![
        b"tx1".to_vec(),
        b"tx2".to_vec(),
        b"tx3".to_vec(),
        b"tx4".to_vec(),
    ];

    let merkle_tree = MerkleTree::new(transactions);
    let root = merkle_tree.get_root();
    let fake_transaction = b"fake_tx".to_vec();

    let proof = merkle_tree.get_proof(&fake_transaction);
    assert!(proof.is_empty());
    assert!(!MerkleTree::verify_proof(proof, root, fake_transaction));
}

#[test]
fn root_of_two_leaves_hashes_smaller_first() {
    let tree = MerkleTree::new(vec![b"tx2".to_vec(), b"tx1".to_vec()]);
    assert_eq!(tree.get_root(), sha(b"tx1", b"tx2"));
    assert_eq!(tree.get_root().len(), 32);
}

#[test]
fn odd_leaf_is_paired_with_itself() {
    let tree = MerkleTree::new(vec![b"a".to_vec(), b"b".to_vec(), b"c".to_vec()]);
    let left = sha(b"a", b"b");
    let right = sha(b"c", b"c");
    let expected = if left < right { sha(&left, &right) } else { sha(&right, &left) };
    assert_eq!(tree.get_root(), expected);
    let proof = tree.get_proof(&b"c".to_vec());
    assert_eq!(proof, vec![b"c".to_vec(), left]);
}

#[test]
fn every_leaf_of_odd_trees_verifies() {
    for n in 1..9u8 {
        let leaves: Vec<Vec<u8>> = (0..n).map(|i| vec![b'x', i]).collect();
        let tree = MerkleTree::new(leaves.clone());
        for leaf in &leaves {
            let proof = tree.get_proof(leaf);
            assert!(MerkleTree::verify_proof(proof, tree.get_root(), leaf.clone()));
        }
    }
}

#[test]
fn single_leaf_tree_has_leaf_as_root() {
    let tree = MerkleTree::new(vec![b"only".to_vec()]);
    assert_eq!(tree.get_root(), b"only".to_vec());
    assert!(tree.get_proof(&b"only".to_vec()).is_empty());
    assert!(MerkleTree::verify_proof(vec![], tree.get_root(), b"only".to_vec()));
}

#[test]
fn tampered_proof_fails() {
    let tree = MerkleTree::new(vec![b"tx1".to_vec(), b"tx2".to_vec(), b"tx3".to_vec()]);
    let mut proof = tree.get_proof(&b"tx1".to_vec());
    proof[0][0] ^= 1;
    assert!(!MerkleTree::verify_proof(proof, tree.get_root(), b"tx1".to_vec()));
}

#[test]
fn root_as_string_rejects_invalid_utf8() {
    let tree = MerkleTree::new(vec![vec![0xff, 0xfe]]);
    assert_eq!(
        tree.get_root_as_string(),
        Err("Failed to convert root hash to string".to_string())
    );
    let text = MerkleTree::new(vec![b"root".to_vec()]);
    assert_eq!(text.get_root_as_string(), Ok("root".to_string()));
}

#[test]
fn hex_proofs_round_trip() {
    let tree = MerkleTree::new(vec![b"tx1".to_vec(), b"tx2".to_vec()]);
    let integration = BTCZIntegration::new("http://localhost:18332".to_string());
    let proof = integration.generate_merkle_proof(&tree, "tx1");
    assert_eq!(proof, vec![hex::encode(b"tx2")]);
    assert_eq!(proof[0], "747832");
    assert!(integration.validate_merkle_proof(&tree, "tx1", &proof));
    let upper: Vec<String> = proof.iter().map(|p| p.to_uppercase()).collect();
    assert!(integration.validate_merkle_proof(&tree, "tx1", &upper));
    assert!(!integration.validate_merkle_proof(&tree, "tx1", &["zz".to_string()]));
    assert_eq!(
        BTCZIntegration::encode_proof(&vec![vec![0x00, 0xab], vec![]]),
        vec!["00ab".to_string(), String::new()]
    );
}

#[test]
fn lossy_proof_entries() {
    let tree = MerkleTree::new(vec![b"tx1".to_vec(), b"tx2".to_vec()]);
    let proof = CrossLayerSync::generate_merkle_proof(&tree, "tx2");
    assert_eq!(proof, vec!["tx1".to_string()]);
    assert!(CrossLayerSync::generate_merkle_proof(&tree, "tx9").is_empty());
}
