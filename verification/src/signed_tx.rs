//! The signed submission envelope: a proof manifest, an authentication
//! payload, the canonical content-addressed hash, and signer recovery.
//!
//! The canonical hash is a pure function of the manifest alone: it identifies
//! what is being attested, not who attested it.

use std::collections::HashSet;
use vstd::prelude::*;

use crate::codec::{bytes_of_hashes, Proof};
use crate::hexfmt::{hex_encode, spec_hex_bytes, spec_hex_nat, u64_hex};

verus! {

/// The zero-knowledge proof together with the claimed post-state roots.
#[derive(Debug)]
pub struct Zkp {
    pub new_state_root: Vec<u8>,
    pub new_local_exit_root: Vec<u8>,
    pub proof: Proof,
}

impl Zkp {
    /// Both roots are 32-byte hashes and the proof is fully populated.
    pub open spec fn wf(&self) -> bool {
        &&& self.new_state_root@.len() == 32
        &&& self.new_local_exit_root@.len() == 32
        &&& self.proof.wf()
    }
}

/// Proof metadata along with its zero-knowledge proof: which rollup and
/// which batch range the proof attests to.
#[derive(Debug)]
pub struct ProofManifest {
    pub rollup_id: u32,
    pub last_verified_batch: u64,
    pub new_verified_batch: u64,
    pub zkp: Zkp,
}

impl ProofManifest {
    pub open spec fn wf(&self) -> bool {
        self.zkp.wf()
    }
}

/// A header signed by a validator committee.
#[derive(Debug, Clone)]
pub struct SignedHeader {
    pub header: String,
    pub commit: String,
}

/// A set of validator identifiers.
#[derive(Debug)]
pub struct ValidatorSet {
    pub validators: HashSet<String>,
}

/// A provider identity.
#[derive(Debug, Clone)]
pub struct Id {
    pub id: String,
}

/// A committee-based attestation of the manifest's validity, carried but
/// validated by an external collaborator, not here.
#[derive(Debug)]
pub struct ProofOfConsensusData {
    pub signed_header: SignedHeader,
    pub validators: ValidatorSet,
    pub next_validators: ValidatorSet,
    pub provider: Id,
}

/// All supported authentication methods.
#[derive(Debug, Clone, Copy, PartialEq, Eq, Structural)]
pub enum AuthMethod {
    Signature,
    ProofOfConsensus,
}

/// An ECDSA-style recoverable signature, held as plain values: the two
/// 32-byte scalars and the recovery value.
#[derive(Debug, Clone)]
pub struct RecoverableSignature {
    pub r: Vec<u8>,
    pub s: Vec<u8>,
    pub v: u64,
}

impl RecoverableSignature {
    pub open spec fn wf(&self) -> bool {
        &&& self.r@.len() == 32
        &&& self.s@.len() == 32
    }
}

/// Errors of signer recovery.
#[derive(Debug, Clone, Copy, PartialEq, Eq, Structural)]
pub enum SignatureError {
    /// No signature is present on the envelope.
    MissingSignature,
    /// The signature does not recover to a valid address.
    RecoveryFailed,
}

/// The submission envelope: a manifest and one of several authentication
/// payloads, selected by `auth_method`. Constructed once per inbound request
/// and immutable thereafter.
#[derive(Debug)]
pub struct SignedTx {
    pub tx: ProofManifest,
    pub auth_method: AuthMethod,
    pub signature: Option<RecoverableSignature>,
    pub proof_of_consensus: Option<ProofOfConsensusData>,
}

/// What Keccak-256 returns: named, a function of the input bytes alone.
pub uninterp spec fn keccak_of(b: Seq<u8>) -> Seq<u8>;

/// Relies on ethers_core::utils::keccak256: the 32-byte Keccak-256 digest of
/// the input, a function of the input bytes alone.
#[verifier::external_body]
fn keccak256_bytes(b: &Vec<u8>) -> (out: Vec<u8>)
    ensures
        out@ == keccak_of(b@),
        out@.len() == 32,
{
    ethers_core::utils::keccak256(b.as_slice()).to_vec()
}

/// What ECDSA public-key recovery returns for a signature `(r, s, v)` over a
/// 32-byte digest: named, a function of these values alone; `None` when the
/// signature does not recover to a valid address.
pub uninterp spec fn ecdsa_recover(r: Seq<u8>, s: Seq<u8>, v: u64, digest: Seq<u8>) -> Option<
    Seq<u8>,
>;

/// Relies on ethers_core::types::Signature::recover applied to a 32-byte
/// hash: the recovered 20-byte address depends on the signature scalars, the
/// recovery value and the digest alone, and failure is reported through the
/// result for every input.
#[verifier::external_body]
fn recover_address(sig: &RecoverableSignature, digest: &Vec<u8>) -> (out: Option<Vec<u8>>)
    requires
        sig.wf(),
        digest@.len() == 32,
    ensures
        out matches Some(a) ==> ecdsa_recover(sig.r@, sig.s@, sig.v, digest@) == Some(a@)
            && a@.len() == 20,
        out is None ==> ecdsa_recover(sig.r@, sig.s@, sig.v, digest@) is None,
{
    let signature = ethers_core::types::Signature {
        r: ethers_core::types::U256::from_big_endian(&sig.r),
        s: ethers_core::types::U256::from_big_endian(&sig.s),
        v: sig.v,
    };
    let hash = ethers_core::types::H256::from_slice(digest);
    match signature.recover(hash) {
        Ok(address) => Some(address.as_bytes().to_vec()),
        Err(_) => None,
    }
}

/// The canonical hash preimage of a manifest: the hex-rendered batch bounds,
/// the raw state and exit roots, and the hex-rendered proof bytes,
/// concatenated in that fixed order.
pub open spec fn manifest_preimage(m: ProofManifest) -> Seq<u8> {
    seq![48u8, 120u8] + spec_hex_nat(m.last_verified_batch as nat) + seq![48u8, 120u8]
        + spec_hex_nat(m.new_verified_batch as nat) + m.zkp.new_state_root@
        + m.zkp.new_local_exit_root@ + seq![48u8, 120u8] + spec_hex_bytes(
        bytes_of_hashes(m.zkp.proof@),
    )
}

/// The canonical hash of a submission: the Keccak-256 digest of the
/// manifest's preimage. A function of the manifest alone.
pub open spec fn signed_tx_hash(stx: SignedTx) -> Seq<u8> {
    keccak_of(manifest_preimage(stx.tx))
}

/// What signer recovery returns for a submission that carries a signature.
pub open spec fn spec_recovered_signer(stx: SignedTx) -> Option<Seq<u8>>
    recommends
        stx.signature is Some,
{
    ecdsa_recover(
        stx.signature->Some_0.r@,
        stx.signature->Some_0.s@,
        stx.signature->Some_0.v,
        signed_tx_hash(stx),
    )
}

/// Law: the canonical hash of a submission depends on its manifest alone.
/// Two submissions with the same manifest hash identically, whatever their
/// authentication method, signature or proof of consensus.
pub proof fn lemma_hash_ignores_authentication(a: SignedTx, b: SignedTx)
    requires
        a.tx == b.tx,
    ensures
        signed_tx_hash(a) == signed_tx_hash(b),
{
}

fn push_bytes(dst: &mut Vec<u8>, src: &Vec<u8>)
    ensures
        final(dst)@ == old(dst)@ + src@,
{
    let ghost dst0 = dst@;
    let mut i: usize = 0;
    while i < src.len()
        invariant
            0 <= i <= src@.len(),
            dst@ == dst0 + src@.take(i as int),
        decreases src@.len() - i,
    {
        dst.push(src[i]);
        proof {
            assert(src@.take(i + 1) =~= src@.take(i as int).push(src@[i as int]));
        }
        i += 1;
    }
    proof {
        assert(src@.take(src@.len() as int) =~= src@);
    }
}

impl SignedTx {
    /// The manifest is well-formed and so is the signature, where present.
    pub open spec fn wf(&self) -> bool {
        &&& self.tx.wf()
        &&& match self.signature {
            Some(s) => s.wf(),
            None => true,
        }
    }

    /// Generate the hash that uniquely identifies this submission: the
    /// Keccak-256 digest of the manifest's canonical preimage. The result
    /// ignores the authentication fields entirely.
    pub fn hash(&self) -> (out: Vec<u8>)
        requires
            self.wf(),
        ensures
            out@ == signed_tx_hash(*self),
            out@.len() == 32,
    {
        let mut data: Vec<u8> = Vec::new();
        data.push(48);
        data.push(120);
        let last_hex = u64_hex(self.tx.last_verified_batch);
        push_bytes(&mut data, &last_hex);
        data.push(48);
        data.push(120);
        let new_hex = u64_hex(self.tx.new_verified_batch);
        push_bytes(&mut data, &new_hex);
        push_bytes(&mut data, &self.tx.zkp.new_state_root);
        push_bytes(&mut data, &self.tx.zkp.new_local_exit_root);
        data.push(48);
        data.push(120);
        let proof_bytes = self.tx.zkp.proof.as_bytes();
        let proof_hex = hex_encode(&proof_bytes);
        push_bytes(&mut data, &proof_hex);
        proof {
            assert(data@ =~= manifest_preimage(self.tx));
        }
        keccak256_bytes(&data)
    }

    /// Attempt to recover the address of the signer from the canonical hash
    /// and the recoverable signature. The caller must have checked that a
    /// signature is present.
    pub fn signer(&self) -> (out: Result<Vec<u8>, SignatureError>)
        requires
            self.wf(),
            self.signature is Some,
        ensures
            out is Ok <==> spec_recovered_signer(*self) is Some,
            out matches Ok(a) ==> spec_recovered_signer(*self) == Some(a@) && a@.len() == 20,
            out is Err ==> out == Err::<Vec<u8>, SignatureError>(SignatureError::RecoveryFailed),
    {
        let digest = self.hash();
        match &self.signature {
            Some(sig) => match recover_address(sig, &digest) {
                Some(address) => Ok(address),
                None => Err(SignatureError::RecoveryFailed),
            },
            None => unreached(),
        }
    }

    /// Like [`SignedTx::signer`], but checks eagerly that a signature is
    /// present instead of demanding it of the caller, and reports its
    /// absence as an error.
    pub fn signer_checked(&self) -> (out: Result<Vec<u8>, SignatureError>)
        requires
            self.wf(),
        ensures
            self.signature is None ==> out == Err::<Vec<u8>, SignatureError>(
                SignatureError::MissingSignature,
            ),
            self.signature is Some ==> {
                &&& out is Ok <==> spec_recovered_signer(*self) is Some
                &&& (out matches Ok(a) ==> spec_recovered_signer(*self) == Some(a@) && a@.len()
                    == 20)
                &&& (out is Err ==> out == Err::<Vec<u8>, SignatureError>(
                    SignatureError::RecoveryFailed,
                ))
            },
    {
        if self.signature.is_some() {
            self.signer()
        } else {
            Err(SignatureError::MissingSignature)
        }
    }
}

} // verus!
