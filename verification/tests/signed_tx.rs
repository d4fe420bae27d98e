use std::collections::HashSet;

use agglayer_core::codec::Proof;
use agglayer_core::signed_tx::{
    AuthMethod, Id, ProofManifest, ProofOfConsensusData, RecoverableSignature, SignatureError,
    SignedHeader, SignedTx, ValidatorSet, Zkp,
};

fn make_tx(auth_method: AuthMethod) -> SignedTx {
    let proof_bytes: Vec<u8> = (0..768).map(|i| (i % 256) as u8).collect();
    SignedTx {
        tx: ProofManifest {
            rollup_id: 1,
            last_verified_batch: 0x28f,
            new_verified_batch: 0x290,
            zkp: Zkp {
                new_state_root: vec![0x11u8; 32],
                new_local_exit_root: vec![0x22u8; 32],
                proof: Proof::try_from_slice(&proof_bytes).unwrap(),
            },
        },
        auth_method,
        signature: None,
        proof_of_consensus: None,
    }
}

fn expected_hash(
    last: u64,
    new: u64,
    state_root: &[u8],
    exit_root: &[u8],
    proof: &[u8],
) -> Vec<u8> {
    let last_hex = format!("0x{:x}", last);
    let new_hex = format!("0x{:x}", new);
    let proof_hex = format!("0x{}", hex::encode(proof));
    let data = [
        last_hex.as_bytes(),
        new_hex.as_bytes(),
        state_root,
        exit_root,
        proof_hex.as_bytes(),
    ]
    .concat();
    ethers_core::utils::keccak256(data).to_vec()
}

#[test]
fn hash_matches_the_canonical_construction() {
    let tx = make_tx(AuthMethod::Signature);
    let proof_bytes: Vec<u8> = (0..768).map(|i| (i % 256) as u8).collect();
    let expected = expected_hash(
        0x28f,
        0x290,
        &[0x11u8; 32],
        &[0x22u8; 32],
        &proof_bytes,
    );
    assert_eq!(tx.hash(), expected);
}

#[test]
fn hash_depends_on_the_manifest_alone() {
    let with_signature = {
        let mut tx = make_tx(AuthMethod::Signature);
        tx.signature = Some(RecoverableSignature { r: vec![9u8; 32], s: vec![8u8; 32], v: 27 });
        tx
    };
    let with_consensus = {
        let mut tx = make_tx(AuthMethod::ProofOfConsensus);
        tx.proof_of_consensus = Some(ProofOfConsensusData {
            signed_header: SignedHeader {
                header: "header".to_string(),
                commit: "commit".to_string(),
            },
            validators: ValidatorSet { validators: HashSet::from(["val-1".to_string()]) },
            next_validators: ValidatorSet { validators: HashSet::from(["val-2".to_string()]) },
            provider: Id { id: "provider".to_string() },
        });
        tx
    };
    let bare = make_tx(AuthMethod::Signature);
    assert_eq!(with_signature.hash(), bare.hash());
    assert_eq!(with_consensus.hash(), bare.hash());
}

#[test]
fn hash_differs_when_the_manifest_differs() {
    let a = make_tx(AuthMethod::Signature);
    let mut b = make_tx(AuthMethod::Signature);
    b.tx.new_verified_batch = 0x291;
    assert_ne!(a.hash(), b.hash());
}

#[test]
fn signer_recovers_the_signing_address() {
    let mut tx = make_tx(AuthMethod::Signature);
    let signing_key = k256::ecdsa::SigningKey::from_slice(&[0x42u8; 32]).unwrap();
    let digest = tx.hash();
    let (signature, recovery_id) = signing_key.sign_prehash_recoverable(&digest).unwrap();
    let sig_bytes = signature.to_bytes();
    tx.signature = Some(RecoverableSignature {
        r: sig_bytes[..32].to_vec(),
        s: sig_bytes[32..].to_vec(),
        v: 27 + recovery_id.to_byte() as u64,
    });

    let recovered = tx.signer().unwrap();

    let public_key = signing_key.verifying_key().to_encoded_point(false);
    let key_hash = ethers_core::utils::keccak256(&public_key.as_bytes()[1..]);
    assert_eq!(recovered, key_hash[12..].to_vec());
}

#[test]
fn signer_reports_a_signature_that_recovers_to_no_address() {
    let mut tx = make_tx(AuthMethod::Signature);
    // A zero scalar is not a valid signature component: recovery fails.
    tx.signature = Some(RecoverableSignature { r: vec![0u8; 32], s: vec![0u8; 32], v: 27 });
    assert_eq!(tx.signer().unwrap_err(), SignatureError::RecoveryFailed);
}

#[test]
fn signer_checked_reports_a_missing_signature() {
    let tx = make_tx(AuthMethod::Signature);
    assert_eq!(tx.signer_checked().unwrap_err(), SignatureError::MissingSignature);
}
